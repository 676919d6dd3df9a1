//! Device location: a linear search over the peripherals a scan window
//! produced, comparing stringified addresses against the requested one.

use vstd::prelude::*;

use crate::device::PeripheralInfo;

verus! {

/// Some discovered peripheral carries exactly the requested address.
pub open spec fn spec_address_present(peripherals: Seq<PeripheralInfo>, target: Seq<char>) -> bool {
    exists|i: int| 0 <= i < peripherals.len() && peripherals[i].address@ == target
}

/// Find the peripheral whose address equals `target` exactly
/// (case-sensitive). When several peripherals carry the same address, the
/// last one enumerated wins: the search fills a single slot and never stops
/// early.
pub fn locate(target: &String, peripherals: &Vec<PeripheralInfo>) -> (r: Option<usize>)
    ensures
        match r {
            Some(i) => {
                &&& 0 <= i < peripherals@.len()
                &&& peripherals@[i as int].address@ == target@
                &&& forall|j: int|
                    i < j < peripherals@.len() ==> peripherals@[j].address@ != target@
            },
            None => !spec_address_present(peripherals@, target@),
        },
{
    let mut found: Option<usize> = None;
    let mut i: usize = 0;
    while i < peripherals.len()
        invariant
            0 <= i <= peripherals@.len(),
            match found {
                Some(f) => {
                    &&& 0 <= f < i
                    &&& peripherals@[f as int].address@ == target@
                    &&& forall|j: int| f < j < i ==> peripherals@[j].address@ != target@
                },
                None => forall|j: int| 0 <= j < i ==> peripherals@[j].address@ != target@,
            },
        decreases peripherals@.len() - i,
    {
        if peripherals[i].address == *target {
            found = Some(i);
        }
        i = i + 1;
    }
    found
}

} // verus!
