//! The offset that names a computation definition.
use vstd::prelude::*;
use vstd::string::StringSliceAdditionalSpecFns;

verus! {

/// The SHA-256 digest of a byte sequence.
pub uninterp spec fn sha256_of(data: Seq<u8>) -> Seq<u8>;

/// Relies on `sha2_const_stable::Sha256` (`new`, `update`, `finalize`): the
/// 32-byte SHA-256 digest of `data`, which depends on the bytes alone. Its
/// bit-length counter is a `u64`, so inputs of 2^61 bytes or more are left out.
#[verifier::external_body]
fn sha256_digest(data: &[u8]) -> (r: [u8; 32])
    requires
        data@.len() < 0x2000_0000_0000_0000,
    ensures
        r@ == sha256_of(data@),
{
    sha2_const_stable::Sha256::new().update(data).finalize()
}

/// The value of the first four bytes of `b` read as a little-endian integer.
pub open spec fn le_u32(b: Seq<u8>) -> int {
    b[0] + 256 * b[1] + 65536 * b[2] + 16777216 * b[3]
}

/// The offset named by a digest: its first four bytes, little-endian.
pub fn offset_from_digest(digest: &[u8; 32]) -> (r: u32)
    ensures
        r == le_u32(digest@),
{
    digest[0] as u32 + (digest[1] as u32) * 256 + (digest[2] as u32) * 65536 + (digest[3] as u32)
        * 16777216
}

/// The offset of the computation definition of the encrypted instruction
/// named `conf_ix_name`: the first four bytes, little-endian, of the SHA-256
/// digest of the name's UTF-8 bytes.
pub fn comp_def_offset(conf_ix_name: &str) -> (r: u32)
    requires
        conf_ix_name.spec_bytes().len() < 0x2000_0000_0000_0000,
    ensures
        r == le_u32(sha256_of(conf_ix_name.spec_bytes())),
{
    let digest = sha256_digest(conf_ix_name.as_bytes());
    offset_from_digest(&digest)
}

} // verus!
