//! Parts of the physical layer.

pub mod modulator;
pub mod soapy_dev;
