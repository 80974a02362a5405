use vstd::prelude::*;

verus! {

broadcast use vstd::array::group_array_axioms;

/// A 32-byte account address.
#[derive(Clone, Copy, Debug, PartialEq, Eq)]
pub struct Key {
    pub bytes: [u8; 32],
}

impl View for Key {
    type V = Seq<u8>;

    open spec fn view(&self) -> Seq<u8> {
        self.bytes@
    }
}

/// Two addresses are the same value exactly when their bytes agree.
pub proof fn lemma_key_view_injective(a: Key, b: Key)
    ensures
        a@ == b@ <==> a == b,
{
    if a@ == b@ {
        assert(a.bytes@ =~= b.bytes@);
        assert(a.bytes == b.bytes);
    }
}

impl Key {
    /// The address made of the given bytes.
    pub fn new(bytes: [u8; 32]) -> (k: Key)
        ensures
            k.bytes == bytes,
    {
        Key { bytes }
    }

    /// Whether `self` and `other` are the same address.
    pub fn same_as(&self, other: &Key) -> (r: bool)
        ensures
            r == (*self == *other),
    {
        proof {
            lemma_key_view_injective(*self, *other);
        }
        let mut i: usize = 0;
        while i < 32
            invariant
                i <= 32,
                self.bytes@.len() == 32,
                other.bytes@.len() == 32,
                forall|j: int| 0 <= j < i ==> self.bytes@[j] == other.bytes@[j],
            decreases 32 - i,
        {
            if self.bytes[i] != other.bytes[i] {
                return false;
            }
            i = i + 1;
        }
        assert(self@ =~= other@);
        true
    }
}

} // verus!
