use vstd::prelude::*;

verus! {

/// Which part of the board's peripherals failed.
#[derive(Clone, Copy, Debug, PartialEq, Eq, Structural)]
pub enum RppalError {
    Gpio,
    Pwm,
}

} // verus!
