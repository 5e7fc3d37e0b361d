//! Structural 128-bit identifiers naming codecs and presets.
//!
//! The wrapper never constructs meaningful identifiers itself: it only
//! receives them from the provider's enumeration calls or from
//! caller-supplied literals, and compares them field for field.

use vstd::prelude::*;

verus! {

broadcast use vstd::array::group_array_axioms;

/// A 128-bit identifier naming a codec or a preset. Equality is
/// structural: all four fields equal.
#[derive(Clone, Copy, Debug)]
pub struct Guid {
    /// First 32 bits of the identifier.
    pub data1: u32,
    /// Next 16 bits.
    pub data2: u16,
    /// Next 16 bits.
    pub data3: u16,
    /// Final 64 bits, as eight bytes.
    pub data4: [u8; 8],
}

impl vstd::std_specs::cmp::PartialEqSpecImpl for Guid {
    open spec fn obeys_eq_spec() -> bool {
        true
    }

    open spec fn eq_spec(&self, other: &Guid) -> bool {
        *self == *other
    }
}

impl PartialEq for Guid {
    fn eq(&self, other: &Guid) -> (r: bool) {
        let fixed: bool = self.data1 == other.data1 && self.data2 == other.data2
            && self.data3 == other.data3;
        let mut tail: bool = true;
        let mut i: usize = 0;
        while i < 8
            invariant
                i <= 8,
                tail == (forall|j: int| 0 <= j < i ==> self.data4[j] == other.data4[j]),
            decreases 8 - i,
        {
            tail = tail && self.data4[i] == other.data4[i];
            i = i + 1;
        }
        proof {
            if tail {
                assert(self.data4 =~= other.data4);
            }
        }
        fixed && tail
    }
}

impl Eq for Guid {}

impl Guid {
    /// The all-zero identifier, the neutral value fields start from.
    pub fn zeroed() -> (r: Guid)
        ensures
            r.data1 == 0,
            r.data2 == 0,
            r.data3 == 0,
            forall|j: int| 0 <= j < 8 ==> r.data4[j] == 0,
    {
        Guid { data1: 0, data2: 0, data3: 0, data4: [0u8; 8] }
    }
}

/// Linear membership test of an identifier in a list the provider
/// returned.
pub fn guid_list_contains(list: &Vec<Guid>, guid: &Guid) -> (r: bool)
    ensures
        r == list@.contains(*guid),
{
    let mut i: usize = 0;
    while i < list.len()
        invariant
            i <= list@.len(),
            forall|j: int| 0 <= j < i ==> list@[j] != *guid,
        decreases list@.len() - i,
    {
        if list[i] == *guid {
            return true;
        }
        i = i + 1;
    }
    false
}

} // verus!
