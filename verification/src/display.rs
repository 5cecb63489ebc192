//! Pieces of the panel set-up that carry logic of their own.
use core::convert::Infallible;
use vstd::prelude::*;

verus! {

/// An output pin that is not wired: the panel's reset line is tied off, so
/// driving it does nothing and cannot fail.
#[derive(Clone, Copy, Debug)]
pub struct NoPin;

impl NoPin {
    /// Driving the pin low always succeeds.
    pub fn set_low(&mut self) -> (r: Result<(), Infallible>)
        ensures
            r is Ok,
    {
        Ok(())
    }

    /// Driving the pin high always succeeds.
    pub fn set_high(&mut self) -> (r: Result<(), Infallible>)
        ensures
            r is Ok,
    {
        Ok(())
    }
}

} // verus!
