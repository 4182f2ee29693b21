//! Conformance checking for implementations of a configuration-language
//! decoder or encoder.
//!
//! The library holds the value model that decoders produce, the semantic
//! comparator that judges two decoded documents, the canonical tagged JSON
//! encoding of values, the capability contracts an implementation offers,
//! the selection of the cases to run, and the bookkeeping of a run.
pub mod corpus;
pub mod encoded;
pub mod error;
pub mod float;
pub mod harness;
pub mod json;
pub mod scalar;
pub mod select;
pub mod temporal;
pub mod text;
pub mod value;
pub mod verify;

pub use error::Error;
pub use error::ErrorKind;
pub use scalar::DecodedScalar;
pub use value::DecodedValue;
pub use verify::Command;
pub use verify::Decoder;
pub use verify::Encoder;
