use vstd::prelude::*;

verus! {

/// What `base64::decode` (standard alphabet, padded) makes of the given
/// text: the decoded bytes, or `None` where it reports an error.
pub uninterp spec fn base64_decoded(s: Seq<char>) -> Option<Seq<u8>>;

/// What a gzip decoder reads from the given bytes: the decompressed bytes of
/// the stream, or `None` where it reports an error.
pub uninterp spec fn gunzipped(b: Seq<u8>) -> Option<Seq<u8>>;

#[verifier::external_type_specification]
#[verifier::external_body]
pub struct ExBase64DecodeError(base64::DecodeError);

/// Relies on `base64::decode`: decoding depends on the text alone.
#[verifier::external_body]
pub(crate) fn base64_decode(s: &str) -> (r: Result<Vec<u8>, base64::DecodeError>)
    ensures
        r matches Ok(b) ==> base64_decoded(s@) == Some(b@),
        r is Err ==> base64_decoded(s@) is None,
{
    base64::decode(s)
}

/// Relies on `flate2::read::GzDecoder` read to the end: the output depends
/// on the input bytes alone, and an error of the decoder gives `None`.
#[verifier::external_body]
pub(crate) fn gunzip(b: &[u8]) -> (r: Option<Vec<u8>>)
    ensures
        r matches Some(out) ==> gunzipped(b@) == Some(out@),
        r is None ==> gunzipped(b@) is None,
{
    let mut out = Vec::new();
    let mut decoder = flate2::read::GzDecoder::new(b);
    std::io::Read::read_to_end(&mut decoder, &mut out).ok().map(|_| out)
}

} // verus!
