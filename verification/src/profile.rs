use vstd::prelude::*;

verus! {

/// Whether configs are set up where a setup profile does not say: yes.
pub fn default_configs() -> (r: bool)
    ensures
        r,
{
    true
}

} // verus!
