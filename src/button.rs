//! User button PC13.
use vstd::prelude::*;

verus! {

/// Pin PC13. There's a button connected to this pin
pub struct PC13;

/// Button connected to pin PC13
pub const BUTTON: PC13 = PC13;

} // verus!
