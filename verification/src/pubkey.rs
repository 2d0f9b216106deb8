//! Account identifiers.

use vstd::prelude::*;
use vstd::std_specs::cmp::PartialEqSpecImpl;

verus! {

/// Number of bytes in an account identifier.
pub const PUBKEY_BYTES: usize = 32;

/// The identifier of an account, a program or a mint: 32 bytes.
#[derive(Clone, Copy, Debug, Eq, Hash)]
pub struct Pubkey {
    pub bytes: [u8; 32],
}

impl View for Pubkey {
    type V = Seq<u8>;

    open spec fn view(&self) -> Seq<u8> {
        self.bytes@
    }
}

impl PartialEq for Pubkey {
    /// Two identifiers are equal when all their bytes are.
    fn eq(&self, other: &Pubkey) -> (r: bool) {
        let mut i: usize = 0;
        while i < 32
            invariant
                i <= 32,
                forall|j: int| 0 <= j < i ==> self.bytes[j] == other.bytes[j],
            decreases 32 - i,
        {
            if self.bytes[i] != other.bytes[i] {
                return false;
            }
            i += 1;
        }
        proof {
            assert(self.bytes@ =~= other.bytes@);
            assert(self.bytes == other.bytes);
        }
        true
    }
}

impl PartialEqSpecImpl for Pubkey {
    open spec fn obeys_eq_spec() -> bool {
        true
    }

    open spec fn eq_spec(&self, other: &Pubkey) -> bool {
        *self == *other
    }
}

impl Default for Pubkey {
    /// The identifier whose bytes are all zero.
    fn default() -> (key: Pubkey)
        ensures
            key == Pubkey::spec_default(),
    {
        Pubkey { bytes: [0u8; 32] }
    }
}

impl Pubkey {
    /// The identifier whose bytes are all zero.
    pub open spec fn spec_default() -> Pubkey {
        Pubkey { bytes: vstd::array::spec_array_fill_for_copy_type::<u8, 32>(0u8) }
    }

    /// Wraps 32 bytes as an identifier.
    pub fn new_from_array(bytes: [u8; 32]) -> (key: Pubkey)
        ensures
            key.bytes == bytes,
    {
        Pubkey { bytes }
    }

    /// The 32 bytes of the identifier.
    pub fn to_bytes(self) -> (bytes: [u8; 32])
        ensures
            bytes == self.bytes,
    {
        self.bytes
    }
}

/// Identifiers with the same bytes are the same identifier.
pub proof fn lemma_view_injective(a: Pubkey, b: Pubkey)
    ensures
        (a@ == b@) == (a == b),
{
    if a@ == b@ {
        assert(a.bytes =~= b.bytes);
    }
}

/// The bytes of the default identifier are 32 zeros.
pub proof fn lemma_default_is_zero()
    ensures
        Pubkey::spec_default()@ == Seq::new(32, |i: int| 0u8),
{
    assert(Pubkey::spec_default()@ =~= Seq::new(32, |i: int| 0u8));
}

} // verus!
