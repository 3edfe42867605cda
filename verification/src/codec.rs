use vstd::prelude::*;
use crate::head::Head;
use crate::head::HeadView;
use bytecodec::Decode;
use bytecodec::DecodeExt;

verus! {

// The wire-level request-head decoder of the outside codec library:
// `httpcodec`'s request decoder (with no body) wrapped in `bytecodec`'s
// `MaybeEos` combinator, which tolerates an end of stream that arrives
// before any byte of a new head has been consumed.

#[verifier::external_type_specification]
#[verifier::external_body]
#[verifier::reject_recursive_types(D)]
pub struct ExMaybeEos<D>(bytecodec::combinator::MaybeEos<D>);

#[verifier::external_type_specification]
#[verifier::external_body]
#[verifier::reject_recursive_types(D)]
pub struct ExRequestDecoder<D>(httpcodec::RequestDecoder<D>);

#[verifier::external_type_specification]
#[verifier::external_body]
pub struct ExNoBodyDecoder(httpcodec::NoBodyDecoder);

/// The incremental request-head decoder for one connection.
pub type HeadDecoder = bytecodec::combinator::MaybeEos<
    httpcodec::RequestDecoder<httpcodec::NoBodyDecoder>,
>;

/// The intake bound under which the codec's size allowances cannot
/// trip. The codec limits the request line and the header block to
/// `0xFFFF` bytes each, and its `MaxBytes` guard rejects a call whose
/// incoming chunk length exceeds the *remaining* allowance — a test
/// against the chunking, not against the head. Below this bound on the
/// total intake (consumed plus chunk) no allowance can trip, and the
/// decoder's outcome is a function of the byte sequence alone.
pub const HEAD_INTAKE_LIMIT: usize = 0xFFFF;

/// The bytes the decoder has consumed so far toward the current head.
pub uninterp spec fn decoder_fed(d: HeadDecoder) -> Seq<u8>;

/// Where the request head inside a byte sequence ends: `Some(k)` when
/// the first `k` bytes of `s` form one complete request head (within the
/// codec's size limits), `None` when no prefix of `s` does.
pub uninterp spec fn head_end(s: Seq<u8>) -> Option<int>;

/// Whether a byte sequence is an acceptable beginning of a request head:
/// no byte of `s` up to its head end (or up to its end, when no head is
/// complete in it) violates the head grammar or the codec's size limits.
pub uninterp spec fn head_prefix_ok(s: Seq<u8>) -> bool;

/// The head parsed out of a byte sequence; meaningful when
/// `head_end(s) == Some(s.len())`.
pub uninterp spec fn parsed_head(s: Seq<u8>) -> HeadView;

/// Whether a complete head passes the codec's finish-time validation:
/// the version token is `HTTP/1.0` or `HTTP/1.1` and the request line
/// ends in CRLF. The codec buffers those ten bytes unvalidated while
/// decoding and judges them only when the head is finished, so a head
/// can complete and still be invalid; a function of the bytes alone.
pub uninterp spec fn head_valid(s: Seq<u8>) -> bool;

/// Whether a byte sequence is exactly one complete request head.
pub open spec fn head_complete(s: Seq<u8>) -> bool {
    head_end(s) == Some(s.len() as int)
}

/// What one feeding of buffered bytes did to the decoder.
pub enum DecodeStep {
    /// The decoder consumed this many bytes of the chunk and wants either
    /// more bytes or a `finish`.
    Consumed(usize),
    /// End of stream arrived while a head was partially parsed.
    TruncatedInput,
    /// The bytes violate the request-head grammar or the codec's limits.
    MalformedInput,
}

/// Relies on `httpcodec::RequestDecoder::new` and
/// `bytecodec::DecodeExt::maybe_eos`: a freshly built decoder has
/// consumed nothing, and the empty sequence neither completes a head nor
/// violates the grammar.
#[verifier::external_body]
pub fn new_head_decoder() -> (r: HeadDecoder)
    ensures
        decoder_fed(r) == Seq::<u8>::empty(),
        head_end(decoder_fed(r)) is None,
        head_prefix_ok(decoder_fed(r)),
{
    httpcodec::RequestDecoder::new(httpcodec::NoBodyDecoder).maybe_eos()
}

/// Everything one call of `decode_step` guarantees, over the decoder
/// state before (`d0`) and after (`d1`) the call, the chunk fed, the
/// end-of-stream flag, and the step reported.
pub open spec fn decode_step_post(
    d0: HeadDecoder,
    d1: HeadDecoder,
    chunk: Seq<u8>,
    eos: bool,
    r: DecodeStep,
) -> bool {
    let fed = decoder_fed(d0);
    let s = fed + chunk;
    &&& (head_prefix_ok(s) && head_end(s) is Some ==> {
        let k = head_end(s).unwrap();
        &&& fed.len() <= k <= s.len()
        &&& r == DecodeStep::Consumed((k - fed.len()) as usize)
        &&& decoder_fed(d1) == s.take(k)
        &&& head_prefix_ok(decoder_fed(d1))
        &&& head_end(decoder_fed(d1)) == Some(k)
    })
    &&& (head_prefix_ok(s) && head_end(s) is None && !eos ==> {
        &&& r == DecodeStep::Consumed(chunk.len() as usize)
        &&& decoder_fed(d1) == s
        &&& head_prefix_ok(decoder_fed(d1))
        &&& head_end(decoder_fed(d1)) is None
    })
    &&& (head_prefix_ok(s) && head_end(s) is None && eos && s.len() > 0 ==> r
        == DecodeStep::TruncatedInput)
    &&& (eos && s.len() == 0 ==> {
        &&& r == DecodeStep::Consumed(0)
        &&& decoder_fed(d1) == s
        &&& head_prefix_ok(decoder_fed(d1))
        &&& head_end(decoder_fed(d1)) is None
    })
    &&& (!head_prefix_ok(s) ==> r == DecodeStep::MalformedInput)
}

/// Relies on `bytecodec::Decode::decode` of the decoder above, whose
/// source shows: it consumes as many bytes as possible, stopping only
/// when the head completes; it fails with `ErrorKind::UnexpectedEos`
/// when the stream ends while a head is partially parsed (except that
/// `MaybeEos` masks an end of stream that arrives before any byte of the
/// head was consumed); and it fails with a grammar error on bytes no
/// request head can start with. The decoder never consumes past the end
/// of a complete head, so the head end of the total input lies between
/// what was already consumed and the end of the chunk.
///
/// Beyond [`HEAD_INTAKE_LIMIT`] the codec's size guard judges the
/// incoming chunk length, so the same bytes can be accepted under one
/// chunking and rejected under another; the bound on the total intake
/// keeps every call inside the region where the outcome is a function
/// of the byte sequence and the end-of-stream flag alone.
#[verifier::external_body]
pub fn decode_step(d: &mut HeadDecoder, chunk: &[u8], eos: bool) -> (r: DecodeStep)
    requires
        head_prefix_ok(decoder_fed(*old(d))),
        head_end(decoder_fed(*old(d))) is None,
        decoder_fed(*old(d)).len() + chunk@.len() <= HEAD_INTAKE_LIMIT,
    ensures
        decode_step_post(*old(d), *final(d), chunk@, eos, r),
{
    match d.decode(chunk, bytecodec::Eos::new(eos)) {
        Ok(n) => DecodeStep::Consumed(n),
        Err(e) => {
            if *e.kind() == bytecodec::ErrorKind::UnexpectedEos {
                DecodeStep::TruncatedInput
            } else {
                DecodeStep::MalformedInput
            }
        },
    }
}

/// Relies on `bytecodec::Decode::is_idle` of the decoder above: the
/// decoder is idle exactly when the bytes it has consumed form one
/// complete request head.
#[verifier::external_body]
pub fn decoder_idle(d: &HeadDecoder) -> (r: bool)
    ensures
        r == head_complete(decoder_fed(*d)),
{
    d.is_idle()
}

/// Relies on `bytecodec::Decode::finish_decoding` of the decoder above,
/// and on the accessors of the `httpcodec::Request` it yields (`method`,
/// `request_target`, `http_version`, `header().fields()` with `name` and
/// `value`), used here only to copy each component out as a plain value.
/// Finishing validates what decoding buffered blind — the version token
/// and the request line's terminator — and fails exactly when that
/// validation does; on success it yields the head parsed from the
/// consumed bytes. Afterwards the decoder's state is unspecified; this
/// crate replaces it with a fresh one.
#[verifier::external_body]
pub fn finish_head(d: &mut HeadDecoder) -> (r: Result<Head, ()>)
    requires
        head_complete(decoder_fed(*old(d))),
    ensures
        r is Ok <==> head_valid(decoder_fed(*old(d))),
        r matches Ok(h) ==> h@ == parsed_head(decoder_fed(*old(d))),
{
    let req = match d.finish_decoding() {
        Ok(req) => req,
        Err(_) => return Err(()),
    };
    Ok(Head {
        method: req.method().as_str().to_string(),
        target: req.request_target().as_str().to_string(),
        version: req.http_version().as_str().to_string(),
        fields: req
            .header()
            .fields()
            .map(|f| (f.name().to_string(), f.value().to_string()))
            .collect(),
    })
}

} // verus!
