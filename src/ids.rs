use vstd::prelude::*;

verus! {

/// Byte-wise equality of two 32-byte values.
pub fn bytes_eq(a: &[u8; 32], b: &[u8; 32]) -> (r: bool)
    ensures
        r == (a@ == b@),
{
    let mut i: usize = 0;
    while i < 32
        invariant
            0 <= i <= 32,
            a@.len() == 32,
            b@.len() == 32,
            forall|j: int| 0 <= j < i ==> a@[j] == b@[j],
        decreases 32 - i,
    {
        if a[i] != b[i] {
            return false;
        }
        i = i + 1;
    }
    assert(a@ =~= b@);
    true
}

/// An account on the host: 32 opaque bytes.
#[derive(Clone, Copy, Debug)]
pub struct AccountId {
    pub bytes: [u8; 32],
}

/// A content-derived identifier: 32 bytes of a SHA-256 digest.
#[derive(Clone, Copy, Debug)]
pub struct Digest {
    pub bytes: [u8; 32],
}

impl View for AccountId {
    type V = Seq<u8>;

    open spec fn view(&self) -> Seq<u8> {
        self.bytes@
    }
}

impl View for Digest {
    type V = Seq<u8>;

    open spec fn view(&self) -> Seq<u8> {
        self.bytes@
    }
}

impl AccountId {
    pub fn from_bytes(bytes: [u8; 32]) -> (r: AccountId)
        ensures
            r.bytes == bytes,
    {
        AccountId { bytes }
    }

    /// The all-zero account, which stands for "no account".
    pub fn zero() -> (r: AccountId)
        ensures
            r@ == Seq::new(32, |i: int| 0u8),
    {
        let r = AccountId { bytes: [0u8; 32] };
        assert(r@ =~= Seq::new(32, |i: int| 0u8));
        r
    }
}

impl Digest {
    pub fn from_bytes(bytes: [u8; 32]) -> (r: Digest)
        ensures
            r.bytes == bytes,
    {
        Digest { bytes }
    }

    /// The all-zero identifier.
    pub fn zero() -> (r: Digest)
        ensures
            r@ == Seq::new(32, |i: int| 0u8),
    {
        let r = Digest { bytes: [0u8; 32] };
        assert(r@ =~= Seq::new(32, |i: int| 0u8));
        r
    }
}

impl PartialEq for AccountId {
    fn eq(&self, o: &AccountId) -> (r: bool)
        ensures
            r == (self@ == o@),
    {
        bytes_eq(&self.bytes, &o.bytes)
    }
}

impl vstd::std_specs::cmp::PartialEqSpecImpl for AccountId {
    open spec fn obeys_eq_spec() -> bool {
        true
    }

    open spec fn eq_spec(&self, o: &AccountId) -> bool {
        self@ == o@
    }
}

impl PartialEq for Digest {
    fn eq(&self, o: &Digest) -> (r: bool)
        ensures
            r == (self@ == o@),
    {
        bytes_eq(&self.bytes, &o.bytes)
    }
}

impl vstd::std_specs::cmp::PartialEqSpecImpl for Digest {
    open spec fn obeys_eq_spec() -> bool {
        true
    }

    open spec fn eq_spec(&self, o: &Digest) -> bool {
        self@ == o@
    }
}

impl Eq for AccountId {}

impl Eq for Digest {}

} // verus!
