use vstd::prelude::*;

use crate::error::ProcError;

verus! {

/// The end of the display-name field of the instruction buffer.
pub const NAME_END: usize = 20;

/// The end of the symbol field of the instruction buffer.
pub const SYMBOL_END: usize = 24;

/// The end of the URI field, and the whole fixed decode window.
pub const URI_END: usize = 74;

/// The text that lossy UTF-8 decoding yields from a byte sequence: invalid or
/// boundary-split sequences become replacement characters, everything else is
/// decoded verbatim. The exact mapping is owned by the decoder relied on below.
pub uninterp spec fn lossy_utf8(bytes: Seq<u8>) -> Seq<char>;

/// Relies on `String::from_utf8_lossy` of std: the decoded text is a function
/// of the input bytes alone, and every decoded character — a replacement
/// character included — consumes at least one input byte.
#[verifier::external_body]
fn utf8_lossy(bytes: &[u8]) -> (r: String)
    ensures
        r@ == lossy_utf8(bytes@),
        r@.len() <= bytes@.len(),
{
    String::from_utf8_lossy(bytes).to_string()
}

/// The decoded instruction payload: display name, symbol, and URI, each taken
/// verbatim from its fixed byte range, padding bytes preserved.
pub struct Payload {
    pub name: String,
    pub symbol: String,
    pub uri: String,
}

/// The name field of a buffer: bytes 0..20, lossily decoded.
pub open spec fn spec_name(data: Seq<u8>) -> Seq<char>
    recommends
        data.len() >= URI_END,
{
    lossy_utf8(data.subrange(0, NAME_END as int))
}

/// The symbol field of a buffer: bytes 20..24, lossily decoded.
pub open spec fn spec_symbol(data: Seq<u8>) -> Seq<char>
    recommends
        data.len() >= URI_END,
{
    lossy_utf8(data.subrange(NAME_END as int, SYMBOL_END as int))
}

/// The URI field of a buffer: bytes 24..74, lossily decoded.
pub open spec fn spec_uri(data: Seq<u8>) -> Seq<char>
    recommends
        data.len() >= URI_END,
{
    lossy_utf8(data.subrange(SYMBOL_END as int, URI_END as int))
}

/// Holds when a payload is exactly what decoding `data` yields.
pub open spec fn is_decoded_payload(p: Payload, data: Seq<u8>) -> bool {
    &&& p.name@ == spec_name(data)
    &&& p.symbol@ == spec_symbol(data)
    &&& p.uri@ == spec_uri(data)
}

/// Decodes the fixed-layout instruction buffer. A buffer shorter than the
/// 74-byte window is rejected whole; there is no partial result.
pub fn decode_payload(data: &[u8]) -> (r: Result<Payload, ProcError>)
    ensures
        data@.len() >= URI_END ==> (r matches Ok(p) && is_decoded_payload(p, data@)),
        data@.len() < URI_END ==> r == Err::<Payload, ProcError>(ProcError::MalformedInput),
        r matches Ok(p) ==> p.name@.len() <= NAME_END && p.symbol@.len() <= SYMBOL_END - NAME_END
            && p.uri@.len() <= URI_END - SYMBOL_END,
{
    if data.len() < URI_END {
        return Err(ProcError::MalformedInput);
    }
    let name = utf8_lossy(vstd::slice::slice_subrange(data, 0, NAME_END));
    let symbol = utf8_lossy(vstd::slice::slice_subrange(data, NAME_END, SYMBOL_END));
    let uri = utf8_lossy(vstd::slice::slice_subrange(data, SYMBOL_END, URI_END));
    Ok(Payload { name, symbol, uri })
}

/// Decoding is deterministic: identical buffers yield identical field views.
pub proof fn lemma_decode_deterministic(d1: Seq<u8>, d2: Seq<u8>)
    requires
        d1 == d2,
    ensures
        spec_name(d1) == spec_name(d2),
        spec_symbol(d1) == spec_symbol(d2),
        spec_uri(d1) == spec_uri(d2),
{
}

} // verus!
