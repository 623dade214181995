//! The bits of a modifier mask.

use vstd::prelude::*;

verus! {

pub const SHIFT: u8 = 1;

pub const CTRL: u8 = 2;

pub const ALT: u8 = 4;

pub const META: u8 = 8;

} // verus!
