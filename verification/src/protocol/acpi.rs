//! ACPI driver protocol: operation labels.

use vstd::prelude::*;

verus! {

pub const EVAL_METHOD: usize = 1;

} // verus!
