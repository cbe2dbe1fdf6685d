pub mod assemble;
pub mod codec;
pub mod color_convert;
pub mod decoded;
pub mod err;
pub mod geometry;
pub mod lifecycle;
pub mod params;
pub mod source;

pub use assemble::{ImageBuffer, MAX_COMPONENTS};
pub use codec::Codec;
pub use color_convert::{ColorSpace, ColorSpaceValue};
pub use decoded::{Component, Image, Info};
pub use err::Error;
pub use lifecycle::{EngineStep, ErrorKind, Session, Stage, StepOutcome, Teardown};
pub use params::{DecodeParams, DecodingArea, EngineParams};
pub use source::{ByteSource, MemorySource, Stream};
