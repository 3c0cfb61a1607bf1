//! Rules for what the HTTP side may serve.

use vstd::prelude::*;
use vstd::string::StringSliceAdditionalSpecFns;

verus! {

/// Whether two dots follow each other somewhere in `name`.
pub open spec fn has_dot_dot(name: Seq<u8>) -> bool {
    exists|i: int| 0 <= i && i + 1 < name.len() && #[trigger] name[i] == 46 && name[i + 1] == 46
}

/// Whether `name` holds a slash.
pub open spec fn has_slash(name: Seq<u8>) -> bool {
    exists|i: int| 0 <= i < name.len() && #[trigger] name[i] == 47
}

/// Whether `name` ends in `.js`.
pub open spec fn ends_in_js(name: Seq<u8>) -> bool {
    name.len() >= 3 && name[name.len() - 3] == 46 && name[name.len() - 2] == 106 && name[name.len()
        - 1] == 115
}

/// Whether `name`, given by its bytes, may name a component script: a
/// file name ending in `.js` that cannot lead out of the components'
/// directory, for it holds neither a slash nor two dots in a row.
pub open spec fn component_name(name: Seq<u8>) -> bool {
    !has_dot_dot(name) && !has_slash(name) && ends_in_js(name)
}

/// Whether `file` may name a component script.
pub fn is_component_name(file: &str) -> (r: bool)
    ensures
        r == component_name(file.spec_bytes()),
{
    let name = file.as_bytes();
    let n = name.len();
    if n < 3 || name[n - 3] != 46 || name[n - 2] != 106 || name[n - 1] != 115 {
        return false;
    }
    let mut i: usize = 0;
    while i < n
        invariant
            i <= n,
            n == name@.len(),
            name@ == file.spec_bytes(),
            ends_in_js(name@),
            forall|k: int| 0 <= k < i ==> name@[k] != 47,
            forall|k: int| 0 <= k && k + 1 < i ==> !(#[trigger] name@[k] == 46 && name@[k + 1] == 46),
        decreases n - i,
    {
        if name[i] == 47 {
            assert(has_slash(name@));
            return false;
        }
        if i > 0 && name[i] == 46 && name[i - 1] == 46 {
            assert(name@[i - 1] == 46 && name@[i - 1 + 1] == 46);
            assert(has_dot_dot(name@));
            return false;
        }
        i = i + 1;
    }
    true
}

} // verus!
