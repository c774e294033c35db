//! Thermal driver protocol: operation labels.

use vstd::prelude::*;

verus! {

pub const GET_TEMPERATURE: usize = 1;

} // verus!
