//! Pin level marker types for usage of `DummyPin` as an input or
//! stateful-output pin.

use vstd::prelude::*;

verus! {

/// `DummyPin` will always behave as being high when checked.
#[non_exhaustive]
pub struct High;

/// `DummyPin` will always behave as being low when checked.
#[non_exhaustive]
pub struct Low;

} // verus!
