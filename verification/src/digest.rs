//! 32-byte digests and the hash that makes them.

use sha2::{Digest, Sha256};
use vstd::prelude::*;

verus! {

/// The SHA-256 digest of a byte string.
pub uninterp spec fn sha256(bytes: Seq<u8>) -> Seq<u8>;

/// Calls `sha2::Sha256::digest`. Trusted: the 32 bytes that it returns depend on the hashed bytes
/// alone, and `sha256` names them. Nothing is claimed of which bytes they are.
#[verifier::external_body]
fn sha256_bytes(bytes: &[u8]) -> (r: [u8; 32])
    ensures
        r@ == sha256(bytes@),
{
    Sha256::digest(bytes).into()
}

/// 32 bytes that identify a content.
#[derive(Clone, Copy, Debug, Eq, Hash)]
pub struct Digest32 {
    bytes: [u8; 32],
}

impl View for Digest32 {
    type V = Seq<u8>;

    closed spec fn view(&self) -> Seq<u8> {
        self.bytes@
    }
}

impl Digest32 {
    pub fn from_bytes(bytes: [u8; 32]) -> (r: Self)
        ensures
            r@ == bytes@,
    {
        Digest32 { bytes }
    }

    pub fn as_bytes(self) -> (r: [u8; 32])
        ensures
            r@ == self@,
    {
        self.bytes
    }

    pub fn zero() -> (r: Self)
        ensures
            r@ == Seq::new(32, |i: int| 0u8),
    {
        let r = Digest32 { bytes: [0; 32] };
        assert(r@ =~= Seq::new(32, |i: int| 0u8));
        r
    }

    /// The digest of a content.
    pub fn of(content: &[u8]) -> (r: Self)
        ensures
            r@ == sha256(content@),
    {
        Digest32 { bytes: sha256_bytes(content) }
    }

    pub fn append_to(&self, out: &mut Vec<u8>)
        ensures
            final(out)@ == old(out)@ + self@,
    {
        out.extend_from_slice(self.bytes.as_slice());
        assert(out@ =~= old(out)@ + self@);
    }
}

/// Two digests with the same bytes are the same digest.
pub broadcast proof fn digest_ext(a: Digest32, b: Digest32)
    ensures
        #[trigger] a@ == #[trigger] b@ ==> a == b,
{
    if a@ == b@ {
        assert forall|i: int| 0 <= i < 32 implies a.bytes[i] == b.bytes[i] by {
            assert(a@[i] == b@[i]);
        }
        assert(a.bytes =~= b.bytes);
    }
}

impl PartialEq for Digest32 {
    fn eq(&self, other: &Digest32) -> (r: bool) {
        let mut i: usize = 0;
        while i < 32
            invariant
                i <= 32,
                forall|j: int| 0 <= j < i ==> self.bytes@[j] == other.bytes@[j],
            decreases 32 - i,
        {
            if self.bytes[i] != other.bytes[i] {
                return false;
            }
            i = i + 1;
        }
        assert(self.bytes =~= other.bytes);
        true
    }
}

impl vstd::std_specs::cmp::PartialEqSpecImpl for Digest32 {
    open spec fn obeys_eq_spec() -> bool {
        true
    }

    open spec fn eq_spec(&self, other: &Digest32) -> bool {
        *self == *other
    }
}

/// A length as it is framed in front of hashed bytes: eight bytes, most significant first.
pub open spec fn length_frame(len: nat) -> Seq<u8> {
    seq![
        (len / 0x100_0000_0000_0000 % 256) as u8,
        (len / 0x1_0000_0000_0000 % 256) as u8,
        (len / 0x100_0000_0000 % 256) as u8,
        (len / 0x1_0000_0000 % 256) as u8,
        (len / 0x100_0000 % 256) as u8,
        (len / 0x1_0000 % 256) as u8,
        (len / 0x100 % 256) as u8,
        (len % 256) as u8,
    ]
}

pub fn append_length(len: usize, out: &mut Vec<u8>)
    ensures
        final(out)@ == old(out)@ + length_frame(len as nat),
{
    let value = len as u64;
    out.push((value / 0x100_0000_0000_0000 % 256) as u8);
    out.push((value / 0x1_0000_0000_0000 % 256) as u8);
    out.push((value / 0x100_0000_0000 % 256) as u8);
    out.push((value / 0x1_0000_0000 % 256) as u8);
    out.push((value / 0x100_0000 % 256) as u8);
    out.push((value / 0x1_0000 % 256) as u8);
    out.push((value / 0x100 % 256) as u8);
    out.push((value % 256) as u8);
    assert(out@ =~= old(out)@ + length_frame(len as nat));
}

/// Bytes with their length in front, so that what follows cannot be taken for part of them.
pub open spec fn framed(bytes: Seq<u8>) -> Seq<u8> {
    length_frame(bytes.len()) + bytes
}

pub fn append_framed(bytes: &[u8], out: &mut Vec<u8>)
    ensures
        final(out)@ == old(out)@ + framed(bytes@),
{
    append_length(bytes.len(), out);
    out.extend_from_slice(bytes);
    assert(out@ =~= old(out)@ + framed(bytes@));
}

} // verus!
