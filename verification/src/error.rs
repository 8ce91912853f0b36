//! The driver's error type.

use vstd::prelude::*;

verus! {

/// An ADC error.
#[derive(Debug, Clone)]
pub enum Error<SPI> {
    /// The transport failed; the underlying error is carried along.
    Spi(SPI),
}

} // verus!
