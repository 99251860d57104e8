//! Participant identities and 32-byte commitments.
//!
//! Both are fixed-width byte strings. Their mathematical model is the
//! sequence of their bytes; the all-zero sequence is the null identity and
//! the cleared commitment.

use vstd::prelude::*;

verus! {

/// The sequence of 32 zero bytes: the null identity and the cleared hash.
pub open spec fn zero_bytes() -> Seq<u8> {
    Seq::new(32, |i: int| 0u8)
}

/// A 32-byte array of zeros.
pub fn zero_hash() -> (h: [u8; 32])
    ensures
        h@ == zero_bytes(),
{
    let h = [0u8; 32];
    assert(h@ =~= zero_bytes());
    h
}

/// Byte-wise comparison of two 32-byte arrays.
pub fn bytes_equal(a: &[u8; 32], b: &[u8; 32]) -> (same: bool)
    ensures
        same == (a@ == b@),
{
    let mut i: usize = 0;
    while i < 32
        invariant
            i <= 32,
            forall|j: int| 0 <= j < i ==> a@[j] == b@[j],
        decreases 32 - i,
    {
        if a[i] != b[i] {
            return false;
        }
        i += 1;
    }
    assert(a@ =~= b@);
    true
}

/// The authenticated identity of a participant.
///
/// The host attributes every call to one identity. The null identity (all
/// zero bytes) stands for "nobody": an untargeted dare, an unbound daree, a
/// statistics record that no one has claimed yet.
#[derive(Clone, Copy, Debug, Hash)]
pub struct Identity {
    pub bytes: [u8; 32],
}

impl View for Identity {
    type V = Seq<u8>;

    open spec fn view(&self) -> Seq<u8> {
        self.bytes@
    }
}

impl PartialEq for Identity {
    fn eq(&self, other: &Identity) -> (same: bool) {
        bytes_equal(&self.bytes, &other.bytes)
    }
}

impl Eq for Identity {

}

impl vstd::std_specs::cmp::PartialEqSpecImpl for Identity {
    open spec fn obeys_eq_spec() -> bool {
        true
    }

    open spec fn eq_spec(&self, other: &Identity) -> bool {
        self@ == other@
    }
}

impl Default for Identity {
    fn default() -> (id: Identity)
        ensures
            id@ == zero_bytes(),
    {
        Identity { bytes: zero_hash() }
    }
}

impl Identity {
    /// An identity made of the given bytes.
    pub fn new(bytes: [u8; 32]) -> (id: Identity)
        ensures
            id@ == bytes@,
    {
        Identity { bytes }
    }

    /// Whether this is the null identity.
    pub fn is_null(&self) -> (null: bool)
        ensures
            null == (self@ == zero_bytes()),
    {
        let zero = zero_hash();
        bytes_equal(&self.bytes, &zero)
    }
}

} // verus!
