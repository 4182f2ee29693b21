use vstd::prelude::*;
use crate::scalar::DecodedScalar;
use crate::value::DecodedValue;

verus! {

/// A value handed to an encoder: the same tree a decoder produces.
pub type Encoded = DecodedValue;

/// A scalar handed to an encoder.
pub type EncodedValue = DecodedScalar;

} // verus!
