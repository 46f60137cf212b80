//! Decoder for XNB asset containers and exporter of the models they hold
//! to a binary scene format.
//!
//! Every single-precision number of the container is kept as its bit
//! pattern (`Single`), so that all of the library is integer logic.
use vstd::prelude::*;

pub mod args;
pub mod codec;
pub mod error;
pub mod wire;
pub mod reader;
pub mod decode;
pub mod varint;
pub mod single;
pub mod content;
pub mod xnb;
pub mod export;

verus! {

} // verus!
