//! Thirty-two byte identities.

use vstd::prelude::*;

verus! {

/// A ledger identity: the address of an account or of a program.
#[derive(Clone, Copy, Debug, Hash)]
pub struct Pubkey {
    pub bytes: [u8; 32],
}

impl View for Pubkey {
    type V = Seq<u8>;

    open spec fn view(&self) -> Seq<u8> {
        self.bytes@
    }
}

impl PartialEq for Pubkey {
    fn eq(&self, other: &Pubkey) -> (same: bool) {
        let mut i: usize = 0;
        while i < 32
            invariant
                i <= 32,
                forall|j: int| 0 <= j < i ==> self.bytes[j] == other.bytes[j],
            decreases 32 - i,
        {
            if self.bytes[i] != other.bytes[i] {
                return false;
            }
            i += 1;
        }
        assert(self.bytes =~= other.bytes);
        true
    }
}

impl Eq for Pubkey {

}

impl vstd::std_specs::cmp::PartialEqSpecImpl for Pubkey {
    open spec fn obeys_eq_spec() -> bool {
        true
    }

    open spec fn eq_spec(&self, other: &Pubkey) -> bool {
        self.bytes == other.bytes
    }
}

impl Pubkey {
    /// Wraps thirty-two raw bytes as an identity.
    pub fn new_from_array(bytes: [u8; 32]) -> (key: Pubkey)
        ensures
            key.bytes == bytes,
    {
        Pubkey { bytes }
    }

    /// The raw bytes of the identity.
    pub fn to_bytes(&self) -> (bytes: [u8; 32])
        ensures
            bytes == self.bytes,
    {
        self.bytes
    }

    /// Reads an identity from the thirty-two bytes of `data` that begin at
    /// `start`.
    pub(crate) fn from_slice(data: &[u8], start: usize) -> (key: Pubkey)
        requires
            start + 32 <= data.len(),
        ensures
            key@ == data@.subrange(start as int, start + 32),
    {
        let mut bytes: [u8; 32] = [0u8; 32];
        let mut i: usize = 0;
        while i < 32
            invariant
                i <= 32,
                start + 32 <= data.len(),
                forall|j: int| 0 <= j < i ==> bytes[j] == data@[start + j],
            decreases 32 - i,
        {
            bytes[i] = data[start + i];
            i += 1;
        }
        assert(bytes@ =~= data@.subrange(start as int, start + 32));
        Pubkey { bytes }
    }

    /// The identity as a fresh vector of thirty-two bytes.
    pub fn to_vec(&self) -> (out: Vec<u8>)
        ensures
            out@ == self@,
    {
        let mut out: Vec<u8> = Vec::new();
        let mut i: usize = 0;
        while i < 32
            invariant
                i <= 32,
                out@.len() == i,
                forall|j: int| 0 <= j < i ==> out@[j] == self.bytes[j],
            decreases 32 - i,
        {
            out.push(self.bytes[i]);
            i += 1;
        }
        assert(out@ =~= self@);
        out
    }
}

/// Two identities are the same exactly when they hold the same bytes.
pub proof fn lemma_pubkey_eq_view(a: Pubkey, b: Pubkey)
    ensures
        (a == b) <==> (a@ == b@),
        a@.len() == 32,
{
    if a@ == b@ {
        assert(a.bytes =~= b.bytes);
    }
}

} // verus!
