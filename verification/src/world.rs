//! What the scenery is told apart by.

use vstd::prelude::*;
use vstd::string::StringSliceAdditionalSpecFns;

verus! {

/// The word that marks the parts of a tree that get the leaves' material, as
/// bytes.
pub open spec fn leaf() -> Seq<u8> {
    seq![108u8, 101u8, 97u8, 102u8]
}

/// Whether the word stands in `bytes` at `at`.
pub open spec fn leaf_at(bytes: Seq<u8>, at: int) -> bool {
    0 <= at && at + 4 <= bytes.len() && bytes.subrange(at, at + 4) == leaf()
}

/// Whether the word stands anywhere in `bytes`.
pub open spec fn names_leaf(bytes: Seq<u8>) -> bool {
    exists|at: int| leaf_at(bytes, at)
}

/// Whether a part with this name gets the leaves' material: whether the name
/// holds the word "leaf".
pub fn is_leaf(name: &str) -> (found: bool)
    ensures
        found == names_leaf(name.spec_bytes()),
{
    let bytes = name.as_bytes();
    let len: usize = bytes.len();
    let mut at: usize = 0;
    while at < len && len - at >= 4
        invariant
            at <= len,
            len == bytes@.len(),
            bytes@ == name.spec_bytes(),
            forall|k: int| 0 <= k < at ==> !leaf_at(bytes@, k),
        decreases len - at,
    {
        if bytes[at] == 108 && bytes[at + 1] == 101 && bytes[at + 2] == 97 && bytes[at + 3] == 102 {
            proof {
                assert(bytes@.subrange(at as int, at + 4) =~= leaf());
                assert(leaf_at(bytes@, at as int));
            }
            return true;
        }
        proof {
            let word = bytes@.subrange(at as int, at + 4);
            assert(word[0] == bytes@[at as int]);
            assert(word[1] == bytes@[at + 1]);
            assert(word[2] == bytes@[at + 2]);
            assert(word[3] == bytes@[at + 3]);
            assert(leaf()[0] == 108 && leaf()[1] == 101 && leaf()[2] == 97 && leaf()[3] == 102);
        }
        at = at + 1;
    }
    false
}

} // verus!
