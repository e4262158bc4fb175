use vstd::prelude::*;

verus! {

/// Number of bytes in an account identity.
pub const KEY_LEN: usize = 32;

/// The public identity of an account: the authority of a market, a trader, or
/// the address at which a market record is stored. Identities are compared by
/// value, byte for byte.
#[derive(Clone, Copy, Debug)]
pub struct Key {
    pub bytes: [u8; 32],
}

impl View for Key {
    type V = Seq<u8>;

    open spec fn view(&self) -> Seq<u8> {
        self.bytes@
    }
}

impl Key {
    /// An identity made of the given bytes.
    pub fn new(bytes: [u8; 32]) -> (r: Key)
        ensures
            r@ == bytes@,
    {
        Key { bytes }
    }

    /// The bytes of this identity.
    pub fn to_bytes(&self) -> (r: [u8; 32])
        ensures
            r@ == self@,
    {
        self.bytes
    }

    /// Whether `self` and `other` are the same identity.
    pub fn same_as(&self, other: &Key) -> (r: bool)
        ensures
            r == (self@ == other@),
    {
        let mut i: usize = 0;
        while i < KEY_LEN
            invariant
                0 <= i <= KEY_LEN,
                self@.len() == KEY_LEN,
                other@.len() == KEY_LEN,
                forall|j: int| 0 <= j < i ==> self@[j] == other@[j],
            decreases KEY_LEN - i,
        {
            if self.bytes[i] != other.bytes[i] {
                return false;
            }
            i = i + 1;
        }
        assert(self@ =~= other@);
        true
    }
}

impl PartialEq for Key {
    fn eq(&self, other: &Key) -> (r: bool) {
        self.same_as(other)
    }
}

impl vstd::std_specs::cmp::PartialEqSpecImpl for Key {
    open spec fn obeys_eq_spec() -> bool {
        true
    }

    open spec fn eq_spec(&self, other: &Key) -> bool {
        self@ == other@
    }
}

impl Eq for Key {
}

} // verus!
