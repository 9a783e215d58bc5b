//! Content digests and the SHA-256 function that produces them.

use vstd::prelude::*;

verus! {

/// A 32-byte content identity.
#[derive(Clone, Copy, Debug)]
pub struct Digest(pub [u8; 32]);

/// The all-zero digest, used throughout as "absent identity".
pub open spec fn zero_bytes() -> Seq<u8> {
    Seq::new(32, |i: int| 0u8)
}

impl Digest {
    pub open spec fn bytes(self) -> Seq<u8> {
        self.0@
    }

    pub open spec fn spec_is_zero(self) -> bool {
        self.0@ == zero_bytes()
    }

    /// The all-zero digest.
    pub fn zero() -> (d: Digest)
        ensures
            d.spec_is_zero(),
    {
        let d = Digest([0u8; 32]);
        assert(d.0@ =~= zero_bytes());
        d
    }

    /// A digest whose every byte is `byte`.
    pub fn filled(byte: u8) -> (d: Digest)
        ensures
            d.0@ == Seq::new(32, |i: int| byte),
    {
        let d = Digest([byte; 32]);
        assert(d.0@ =~= Seq::new(32, |i: int| byte));
        d
    }

    pub fn is_zero(&self) -> (r: bool)
        ensures
            r == self.spec_is_zero(),
    {
        let mut i: usize = 0;
        while i < 32
            invariant
                i <= 32,
                forall|j: int| 0 <= j < i ==> self.0@[j] == 0u8,
            decreases 32 - i,
        {
            if self.0[i] != 0 {
                return false;
            }
            i = i + 1;
        }
        assert(self.0@ =~= zero_bytes());
        true
    }

    /// Byte-wise equality of two digests.
    pub fn same_as(&self, other: &Digest) -> (r: bool)
        ensures
            r == (self.0@ == other.0@),
    {
        let mut i: usize = 0;
        while i < 32
            invariant
                i <= 32,
                forall|j: int| 0 <= j < i ==> self.0@[j] == other.0@[j],
            decreases 32 - i,
        {
            if self.0[i] != other.0[i] {
                return false;
            }
            i = i + 1;
        }
        assert(self.0@ =~= other.0@);
        true
    }

    /// Lexicographic byte order: `self` sorts strictly before `other`.
    pub fn precedes(&self, other: &Digest) -> (r: bool)
        ensures
            r == bytes_precede(self.0@, other.0@),
    {
        let mut i: usize = 0;
        while i < 32
            invariant
                i <= 32,
                forall|j: int| 0 <= j < i ==> self.0@[j] == other.0@[j],
                bytes_precede(self.0@, other.0@) == bytes_precede_from(self.0@, other.0@, i as int),
            decreases 32 - i,
        {
            if self.0[i] != other.0[i] {
                return self.0[i] < other.0[i];
            }
            i = i + 1;
        }
        false
    }

    /// The digest as an owned byte vector.
    pub fn to_vec(&self) -> (v: Vec<u8>)
        ensures
            v@ == self.0@,
    {
        let mut v: Vec<u8> = Vec::new();
        let mut i: usize = 0;
        while i < 32
            invariant
                i <= 32,
                v@ == self.0@.subrange(0, i as int),
            decreases 32 - i,
        {
            v.push(self.0[i]);
            i = i + 1;
            assert(v@ =~= self.0@.subrange(0, i as int));
        }
        assert(self.0@.subrange(0, 32) =~= self.0@);
        v
    }
}

/// Strict lexicographic order on byte sequences of equal length, from `i` on.
pub open spec fn bytes_precede_from(a: Seq<u8>, b: Seq<u8>, i: int) -> bool
    decreases a.len() - i,
{
    if i < 0 || i >= a.len() || i >= b.len() {
        false
    } else if a[i] != b[i] {
        a[i] < b[i]
    } else {
        bytes_precede_from(a, b, i + 1)
    }
}

pub open spec fn bytes_precede(a: Seq<u8>, b: Seq<u8>) -> bool {
    bytes_precede_from(a, b, 0)
}

impl PartialEq for Digest {
    fn eq(&self, other: &Self) -> (r: bool) {
        self.same_as(other)
    }
}

impl vstd::std_specs::cmp::PartialEqSpecImpl for Digest {
    open spec fn obeys_eq_spec() -> bool {
        true
    }

    open spec fn eq_spec(&self, other: &Digest) -> bool {
        self.0@ == other.0@
    }
}

impl Eq for Digest {}

/// The SHA-256 digest of a byte sequence, as computed by the `sha2` crate.
pub uninterp spec fn sha256_of(data: Seq<u8>) -> Seq<u8>;

/// Calls `sha2::Sha256::digest`. Trusted: the 32 returned bytes are the
/// SHA-256 digest of `data`, named `sha256_of`; nothing more is claimed.
#[verifier::external_body]
pub(crate) fn sha256_bytes(data: &[u8]) -> (d: Digest)
    ensures
        d.0@ == sha256_of(data@),
{
    Digest(<sha2::Sha256 as sha2::Digest>::digest(data).into())
}

/// The SHA-256 digest of `data`.
pub fn digest_bytes(data: &[u8]) -> (d: Digest)
    ensures
        d.0@ == sha256_of(data@),
{
    sha256_bytes(data)
}

} // verus!
