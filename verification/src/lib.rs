//! A bridge that hands a typed, contiguous buffer of numbers to NumPy as a
//! one-dimensional array of the matching dtype.

pub mod dtype;
pub mod encoding;
pub mod runtime;
pub mod transfer;

pub use dtype::ElementKind;
pub use dtype::Float32Bits;
pub use dtype::Float64Bits;
pub use dtype::NumpyDtype;
pub use encoding::ByteOrder;
pub use transfer::BoundaryFailure;
pub use transfer::Payload;
pub use transfer::ToNumpy;
