//! A boundary layer over an external tensor engine: normalizes signed
//! axis/position requests, dispatches generic export operations across a
//! closed set of element types, selects quantization encodings by tag, and
//! converts metadata value trees into host-native values.

pub mod axis;
pub mod backend;
pub mod device;
pub mod dtype;
pub mod error;
pub mod host;
pub mod quant;
pub mod strutil;
pub mod tensor;
pub mod value;
