use vstd::prelude::*;
use vstd::string::*;

verus! {

/// A decoded request head, as plain values: the request line plus the
/// header fields of an HTTP message, excluding any body.
pub struct Head {
    /// The request method, e.g. `GET`.
    pub method: String,
    /// The request target as it stood on the request line.
    pub target: String,
    /// The protocol version token, e.g. `HTTP/1.1`.
    pub version: String,
    /// The header fields, in wire order, as (name, value) pairs.
    pub fields: Vec<(String, String)>,
}

/// The mathematical model of a [`Head`]: every component as a sequence
/// of characters.
pub ghost struct HeadView {
    pub method: Seq<char>,
    pub target: Seq<char>,
    pub version: Seq<char>,
    pub fields: Seq<(Seq<char>, Seq<char>)>,
}

/// The model of a sequence of exec header fields.
pub open spec fn fields_view(fields: Seq<(String, String)>) -> Seq<(Seq<char>, Seq<char>)> {
    fields.map_values(|p: (String, String)| (p.0@, p.1@))
}

impl View for Head {
    type V = HeadView;

    open spec fn view(&self) -> HeadView {
        HeadView {
            method: self.method@,
            target: self.target@,
            version: self.version@,
            fields: fields_view(self.fields@),
        }
    }
}

/// ASCII case folding of one character, as a code point: upper-case
/// ASCII letters map to their lower-case counterpart, everything else
/// to itself.
pub open spec fn fold_char(c: char) -> u32 {
    if 65 <= c as u32 && c as u32 <= 90 {
        (c as u32 + 32) as u32
    } else {
        c as u32
    }
}

/// Whether a field name is `Host`, compared ASCII-case-insensitively,
/// as HTTP requires of field names.
pub open spec fn is_host_name(name: Seq<char>) -> bool {
    &&& name.len() == 4
    &&& fold_char(name[0]) == 'h' as u32
    &&& fold_char(name[1]) == 'o' as u32
    &&& fold_char(name[2]) == 's' as u32
    &&& fold_char(name[3]) == 't' as u32
}

/// The value of the first field named `Host` (ASCII-case-insensitively),
/// if any.
pub open spec fn find_host(fields: Seq<(Seq<char>, Seq<char>)>) -> Option<Seq<char>>
    decreases fields.len(),
{
    if fields.len() == 0 {
        None
    } else if is_host_name(fields[0].0) {
        Some(fields[0].1)
    } else {
        find_host(fields.drop_first())
    }
}

/// Whether a request target is in origin form: an absolute path that
/// begins with `/`.
pub open spec fn origin_form(target: Seq<char>) -> bool {
    target.len() > 0 && target[0] == '/'
}

/// ASCII case folding of one character, executable counterpart of
/// [`fold_char`].
fn fold_char_exec(c: char) -> (r: u32)
    ensures
        r == fold_char(c),
{
    let x = c as u32;
    if 65 <= x && x <= 90 {
        x + 32
    } else {
        x
    }
}

/// Whether a field name is `Host`, compared ASCII-case-insensitively.
fn name_is_host(name: &str) -> (r: bool)
    ensures
        r == is_host_name(name@),
{
    if name.unicode_len() != 4 {
        return false;
    }
    let c0 = fold_char_exec(name.get_char(0));
    let c1 = fold_char_exec(name.get_char(1));
    let c2 = fold_char_exec(name.get_char(2));
    let c3 = fold_char_exec(name.get_char(3));
    c0 == 104 && c1 == 111 && c2 == 115 && c3 == 116
}

proof fn lemma_find_host_step(fields: Seq<(Seq<char>, Seq<char>)>, i: int)
    requires
        0 <= i < fields.len(),
        !is_host_name(fields[i].0),
    ensures
        find_host(fields.skip(i)) == find_host(fields.skip(i + 1)),
{
    assert(fields.skip(i).len() > 0);
    assert(fields.skip(i)[0] == fields[i]);
    assert(fields.skip(i).drop_first() =~= fields.skip(i + 1));
}

impl Head {
    /// The value of the first `Host` field, cloned out, or `None` when
    /// the head carries no such field.
    pub fn host_field_value(&self) -> (r: Option<String>)
        ensures
            match find_host(self@.fields) {
                Some(v) => r matches Some(s) && s@ == v,
                None => r is None,
            },
    {
        let ghost model = fields_view(self.fields@);
        let mut i: usize = 0;
        assert(model.skip(0) =~= model);
        while i < self.fields.len()
            invariant
                i <= self.fields.len(),
                model == fields_view(self.fields@),
                model.len() == self.fields.len(),
                find_host(model) == find_host(model.skip(i as int)),
            decreases self.fields.len() - i,
        {
            assert(model[i as int] == (self.fields@[i as int].0@, self.fields@[i as int].1@));
            if name_is_host(self.fields[i].0.as_str()) {
                assert(find_host(model.skip(i as int)) == Some(model[i as int].1));
                return Some(self.fields[i].1.clone());
            }
            proof {
                lemma_find_host_step(model, i as int);
            }
            i = i + 1;
        }
        assert(model.skip(i as int) =~= Seq::<(Seq<char>, Seq<char>)>::empty());
        None
    }

    /// Whether the request target is in origin form (starts with `/`).
    pub fn target_is_origin_form(&self) -> (r: bool)
        ensures
            r == origin_form(self@.target),
    {
        if self.target.as_str().unicode_len() == 0 {
            false
        } else {
            self.target.as_str().get_char(0) == '/'
        }
    }
}

} // verus!
