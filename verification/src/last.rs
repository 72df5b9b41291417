//! The stateful substitute pin, which remembers the last level written.

use vstd::prelude::*;

use core::convert::Infallible;

verus! {

/// One write operation of the pin capability set: the three calls that may
/// change a pin's level.
pub enum PinWrite {
    /// A `set_high` call.
    SetHigh,
    /// A `set_low` call.
    SetLow,
    /// A `toggle` call.
    Toggle,
}

/// The stateful pin's state machine: the level that holds after one write
/// is applied to a pin at `before` (`true` for high, `false` for low).
pub open spec fn level_after_write(before: bool, w: PinWrite) -> bool {
    match w {
        PinWrite::SetHigh => true,
        PinWrite::SetLow => false,
        PinWrite::Toggle => !before,
    }
}

/// The level that holds after a whole sequence of writes is applied in
/// order to a pin at `before`.
pub open spec fn level_after_writes(before: bool, ws: Seq<PinWrite>) -> bool
    decreases ws.len(),
{
    if ws.len() == 0 {
        before
    } else {
        level_after_write(level_after_writes(before, ws.drop_last()), ws.last())
    }
}

/// Dummy pin implementation which stores the last level set to it and
/// returns it when read.
///
/// Note that this implementation is not zero-cost due to the need to update
/// the level dynamically.
#[derive(Debug, Clone, Copy)]
pub struct LastStateDummyPin {
    is_high: bool,
}

impl View for LastStateDummyPin {
    type V = bool;

    /// A pin's abstract state is the one logic level it holds:
    /// `true` for high, `false` for low.
    closed spec fn view(&self) -> bool {
        self.is_high
    }
}

impl LastStateDummyPin {
    /// Create new instance of pin with the initial level provided.
    ///
    /// `true` corresponds to a high level and `false` to low level.
    pub fn new(is_high: bool) -> (pin: Self)
        ensures
            pin@ == is_high,
    {
        LastStateDummyPin { is_high }
    }

    /// Create new instance of pin initially set low.
    pub fn new_low() -> (pin: Self)
        ensures
            pin@ == false,
    {
        LastStateDummyPin { is_high: false }
    }

    /// Create new instance of pin initially set high.
    pub fn new_high() -> (pin: Self)
        ensures
            pin@ == true,
    {
        LastStateDummyPin { is_high: true }
    }

    /// Set the pin high. The new level is visible to every later read, and
    /// the call cannot fail.
    pub fn set_high(&mut self) -> (r: Result<(), Infallible>)
        ensures
            final(self)@ == level_after_write(old(self)@, PinWrite::SetHigh),
            r == Ok::<(), Infallible>(()),
    {
        self.is_high = true;
        Ok(())
    }

    /// Set the pin low. The new level is visible to every later read, and
    /// the call cannot fail.
    pub fn set_low(&mut self) -> (r: Result<(), Infallible>)
        ensures
            final(self)@ == level_after_write(old(self)@, PinWrite::SetLow),
            r == Ok::<(), Infallible>(()),
    {
        self.is_high = false;
        Ok(())
    }

    /// Flip the pin to the other level. The new level is visible to every
    /// later read, and the call cannot fail.
    pub fn toggle(&mut self) -> (r: Result<(), Infallible>)
        ensures
            final(self)@ == level_after_write(old(self)@, PinWrite::Toggle),
            r == Ok::<(), Infallible>(()),
    {
        self.is_high = !self.is_high;
        Ok(())
    }

    /// Read the input level: the level most recently written (or the
    /// initial one). The read never alters the pin and cannot fail.
    pub fn is_high(&mut self) -> (r: Result<bool, Infallible>)
        ensures
            *final(self) == *old(self),
            r == Ok::<bool, Infallible>(old(self)@),
    {
        Ok(self.is_high)
    }

    /// Read the input level's negation. The read never alters the pin and
    /// cannot fail.
    pub fn is_low(&mut self) -> (r: Result<bool, Infallible>)
        ensures
            *final(self) == *old(self),
            r == Ok::<bool, Infallible>(!old(self)@),
    {
        Ok(!self.is_high)
    }

    /// Read back the output state. It agrees with [`Self::is_high`] at all
    /// times: the one stored bit is both the last level written and the
    /// current input level.
    pub fn is_set_high(&mut self) -> (r: Result<bool, Infallible>)
        ensures
            *final(self) == *old(self),
            r == Ok::<bool, Infallible>(old(self)@),
    {
        Ok(self.is_high)
    }

    /// Read back the output state's negation. It agrees with
    /// [`Self::is_low`] at all times.
    pub fn is_set_low(&mut self) -> (r: Result<bool, Infallible>)
        ensures
            *final(self) == *old(self),
            r == Ok::<bool, Infallible>(!old(self)@),
    {
        Ok(!self.is_high)
    }
}

/// After any non-empty sequence of writes whose last write sets a level,
/// the pin holds exactly that level, whatever came before: high after a
/// final `SetHigh`, low after a final `SetLow`.
pub proof fn lemma_last_set_decides_level(before: bool, ws: Seq<PinWrite>)
    requires
        ws.len() > 0,
        ws.last() is SetHigh || ws.last() is SetLow,
    ensures
        level_after_writes(before, ws) == (ws.last() is SetHigh),
{
}

/// A repeated set is idempotent: writing the same level twice in a row
/// leaves the pin exactly where one write leaves it.
pub proof fn lemma_repeated_set_is_idempotent(before: bool, w: PinWrite)
    requires
        w is SetHigh || w is SetLow,
    ensures
        level_after_write(level_after_write(before, w), w) == level_after_write(before, w),
{
}

/// Toggling twice returns the pin to the level it started from.
pub proof fn lemma_toggle_twice_restores_level(before: bool)
    ensures
        level_after_write(level_after_write(before, PinWrite::Toggle), PinWrite::Toggle) == before,
{
}

/// Two stateful pins at the same level are the same value: the stored bit
/// is all the state there is. In particular `new(true)` builds the very pin
/// `new_high` builds, and `new(false)` the pin `new_low` builds, so the two
/// constructions cannot be told apart by any operation.
pub proof fn lemma_level_determines_pin(a: LastStateDummyPin, b: LastStateDummyPin)
    requires
        a@ == b@,
    ensures
        a == b,
{
}

} // verus!
