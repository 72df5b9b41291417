//! The zero-size, no-op substitute pin.

use vstd::prelude::*;

use core::convert::Infallible;
use core::marker::PhantomData;

use crate::level;

verus! {

/// Dummy (no-op, zero-cost) pin.
///
/// The implementation will discard any value written to it. When read,
/// it will always behave according to the level provided at construction
/// time (high or low), which is encoded in the type parameter: writes are
/// accepted but can never change what a later read returns.
#[derive(Eq, PartialEq, Ord, PartialOrd, Hash, Debug)]
pub struct DummyPin<L = level::Low> {
    _l: PhantomData<L>,
}

impl<L> DummyPin<L> {
    /// Accept a write of the high level. A dummy pin discards it: the pin
    /// is left exactly as it was, and the call cannot fail.
    pub fn set_high(&mut self) -> (r: Result<(), Infallible>)
        ensures
            *final(self) == *old(self),
            r == Ok::<(), Infallible>(()),
    {
        Ok(())
    }

    /// Accept a write of the low level. A dummy pin discards it: the pin
    /// is left exactly as it was, and the call cannot fail.
    pub fn set_low(&mut self) -> (r: Result<(), Infallible>)
        ensures
            *final(self) == *old(self),
            r == Ok::<(), Infallible>(()),
    {
        Ok(())
    }

    /// Accept a toggle. A dummy pin discards it: the pin is left exactly
    /// as it was, and the call cannot fail.
    pub fn toggle(&mut self) -> (r: Result<(), Infallible>)
        ensures
            *final(self) == *old(self),
            r == Ok::<(), Infallible>(()),
    {
        Ok(())
    }
}

impl DummyPin<level::Low> {
    /// The fixed level this pin reports, chosen at construction: low.
    pub open spec fn fixed_high(self) -> bool {
        false
    }

    /// Create new instance.
    ///
    /// When read it will always behave as being low.
    pub fn new_low() -> (pin: Self)
        ensures
            !pin.fixed_high(),
    {
        DummyPin { _l: PhantomData }
    }

    /// Read the input level: always the construction-time level, here low,
    /// independent of any prior write.
    pub fn is_high(&mut self) -> (r: Result<bool, Infallible>)
        ensures
            *final(self) == *old(self),
            r == Ok::<bool, Infallible>(old(self).fixed_high()),
    {
        Ok(false)
    }

    /// Read the input level: always the construction-time level, here low,
    /// independent of any prior write.
    pub fn is_low(&mut self) -> (r: Result<bool, Infallible>)
        ensures
            *final(self) == *old(self),
            r == Ok::<bool, Infallible>(!old(self).fixed_high()),
    {
        Ok(true)
    }

    /// Read back the output state. It agrees with [`Self::is_high`] at all
    /// times: both report only the construction-time level, never the value
    /// of any `set_*` call.
    pub fn is_set_high(&mut self) -> (r: Result<bool, Infallible>)
        ensures
            *final(self) == *old(self),
            r == Ok::<bool, Infallible>(old(self).fixed_high()),
    {
        Ok(false)
    }

    /// Read back the output state. It agrees with [`Self::is_low`] at all
    /// times: both report only the construction-time level, never the value
    /// of any `set_*` call.
    pub fn is_set_low(&mut self) -> (r: Result<bool, Infallible>)
        ensures
            *final(self) == *old(self),
            r == Ok::<bool, Infallible>(!old(self).fixed_high()),
    {
        Ok(true)
    }
}

impl DummyPin<level::High> {
    /// The fixed level this pin reports, chosen at construction: high.
    pub open spec fn fixed_high(self) -> bool {
        true
    }

    /// Create new instance.
    ///
    /// When read it will always behave as being high.
    pub fn new_high() -> (pin: Self)
        ensures
            pin.fixed_high(),
    {
        DummyPin { _l: PhantomData }
    }

    /// Read the input level: always the construction-time level, here high,
    /// independent of any prior write.
    pub fn is_high(&mut self) -> (r: Result<bool, Infallible>)
        ensures
            *final(self) == *old(self),
            r == Ok::<bool, Infallible>(old(self).fixed_high()),
    {
        Ok(true)
    }

    /// Read the input level: always the construction-time level, here high,
    /// independent of any prior write.
    pub fn is_low(&mut self) -> (r: Result<bool, Infallible>)
        ensures
            *final(self) == *old(self),
            r == Ok::<bool, Infallible>(!old(self).fixed_high()),
    {
        Ok(false)
    }

    /// Read back the output state. It agrees with [`Self::is_high`] at all
    /// times: both report only the construction-time level, never the value
    /// of any `set_*` call.
    pub fn is_set_high(&mut self) -> (r: Result<bool, Infallible>)
        ensures
            *final(self) == *old(self),
            r == Ok::<bool, Infallible>(old(self).fixed_high()),
    {
        Ok(true)
    }

    /// Read back the output state. It agrees with [`Self::is_low`] at all
    /// times: both report only the construction-time level, never the value
    /// of any `set_*` call.
    pub fn is_set_low(&mut self) -> (r: Result<bool, Infallible>)
        ensures
            *final(self) == *old(self),
            r == Ok::<bool, Infallible>(!old(self).fixed_high()),
    {
        Ok(false)
    }
}

/// A dummy pin carries no runtime data: any two pins of the same level
/// type are the same value, since the level lives entirely in the type.
/// In particular construction is deterministic — every call of `new_low`
/// builds the very same pin, and likewise every call of `new_high`.
pub proof fn lemma_dummy_pins_are_equal<L>(a: DummyPin<L>, b: DummyPin<L>)
    ensures
        a == b,
{
}

} // verus!
