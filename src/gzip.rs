//! Decompression of gzip data, by libflate.
use vstd::prelude::*;

verus! {

/// What the gzip decoder makes of `data`: the decompressed bytes, or `None`
/// where `data` is not a well-formed gzip stream.
pub uninterp spec fn gunzip_of(data: Seq<u8>) -> Option<Seq<u8>>;

/// Relies on `libflate::gzip::Decoder::new` and its `std::io::Read` impl read
/// to the end: the outcome depends on the input bytes alone.
#[verifier::external_body]
pub(crate) fn gunzip(data: &[u8]) -> (r: Option<Vec<u8>>)
    ensures
        r is Some <==> gunzip_of(data@) is Some,
        r is Some ==> r->0@ == gunzip_of(data@)->0,
{
    let mut decoder = libflate::gzip::Decoder::new(data).ok()?;
    let mut out: Vec<u8> = Vec::new();
    std::io::Read::read_to_end(&mut decoder, &mut out).ok()?;
    Some(out)
}

} // verus!
