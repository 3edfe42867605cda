use vstd::prelude::*;
use vstd::string::*;
use crate::error::BadRequestKind;
use crate::error::Error;
use crate::head::find_host;
use crate::head::origin_form;
use crate::head::Head;
use crate::head::HeadView;

verus! {

/// The resolution of a request target against a base URL, as the
/// outside URL library computes it: `None` when the base does not parse
/// as a URL or the target does not resolve against it, otherwise the
/// serialization of the resolved absolute URL.
pub uninterp spec fn url_resolve(base: Seq<char>, target: Seq<char>) -> Option<Seq<char>>;

/// The base URL built from a `Host` field value: `http://` + host + `/`.
pub open spec fn base_of(host: Seq<char>) -> Seq<char> {
    "http://"@ + host + "/"@
}

/// An application-usable request: a validated head together with the
/// request target resolved into an absolute URL.
pub struct Req {
    /// The decoded request head.
    pub head: Head,
    /// The serialization of the resolved absolute URL.
    pub url: String,
}

/// The mathematical model of a [`Req`].
pub ghost struct ReqView {
    pub head: HeadView,
    pub url: Seq<char>,
}

impl View for Req {
    type V = ReqView;

    open spec fn view(&self) -> ReqView {
        ReqView { head: self.head@, url: self.url@ }
    }
}

/// What validating and enriching a decoded head yields: the rejection,
/// or the request with its resolved URL.
pub open spec fn req_outcome(h: HeadView) -> Result<ReqView, Error> {
    if !origin_form(h.target) {
        Err(Error::BadRequest(BadRequestKind::UnsupportedTarget))
    } else {
        match find_host(h.fields) {
            None => Err(Error::BadRequest(BadRequestKind::MissingHost)),
            Some(host) => match url_resolve(base_of(host), h.target) {
                None => Err(Error::BadRequest(BadRequestKind::InvalidUrl)),
                Some(u) => Ok(ReqView { head: h, url: u }),
            },
        }
    }
}

/// A request target not in origin form is always rejected, whatever the
/// header fields hold.
pub proof fn lemma_bad_target_always_rejected(h: HeadView)
    requires
        !origin_form(h.target),
    ensures
        req_outcome(h) == Err::<ReqView, Error>(
            Error::BadRequest(BadRequestKind::UnsupportedTarget),
        ),
{
}

/// A request without a `Host` field is always rejected, whatever the
/// target holds; when the target is itself fine, the rejection names
/// the missing `Host`.
pub proof fn lemma_missing_host_always_rejected(h: HeadView)
    requires
        find_host(h.fields) is None,
    ensures
        req_outcome(h) is Err,
        origin_form(h.target) ==> req_outcome(h) == Err::<ReqView, Error>(
            Error::BadRequest(BadRequestKind::MissingHost),
        ),
{
}

/// Relies on `url::Url::parse` for the base and on
/// `url::ParseOptions::parse` with that base for the target: parsing and
/// reference resolution depend on the two strings alone.
#[verifier::external_body]
fn resolve_with_base(base: &str, target: &str) -> (r: Option<String>)
    ensures
        r is Some <==> url_resolve(base@, target@) is Some,
        r matches Some(u) ==> u@ == url_resolve(base@, target@).unwrap(),
{
    let parsed = match url::Url::parse(base) {
        Ok(b) => b,
        Err(_) => return None,
    };
    match url::Url::options().base_url(Some(&parsed)).parse(target) {
        Ok(u) => Some(String::from(u)),
        Err(_) => None,
    }
}

impl Req {
    /// Validate a decoded head and enrich it into a request.
    ///
    /// The target must be in origin form, a `Host` field must be
    /// present, and `http://` + host + `/` and the target must combine
    /// into an absolute URL; each failure is the matching rejection.
    pub fn new(head: Head) -> (r: Result<Req, Error>)
        ensures
            match req_outcome(head@) {
                Ok(v) => r matches Ok(q) && q@ == v,
                Err(e) => r == Err::<Req, Error>(e),
            },
    {
        if !head.target_is_origin_form() {
            return Err(Error::BadRequest(BadRequestKind::UnsupportedTarget));
        }
        let host = match head.host_field_value() {
            Some(h) => h,
            None => return Err(Error::BadRequest(BadRequestKind::MissingHost)),
        };
        let mut base = String::from_str("http://");
        base.append(host.as_str());
        base.append("/");
        assert(base@ == base_of(host@));
        match resolve_with_base(base.as_str(), head.target.as_str()) {
            Some(url) => Ok(Req { head, url }),
            None => Err(Error::BadRequest(BadRequestKind::InvalidUrl)),
        }
    }
}

} // verus!

