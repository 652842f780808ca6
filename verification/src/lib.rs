//! Verified core of an image-segmentation inference library.
//!
//! The library loads a semantic-segmentation model behind an execution
//! session, turns one input image into a model-ready tensor, runs the model,
//! and post-processes the raw output into a binary mask.  Everything that can
//! be stated over plain values is verified here: execution-provider planning,
//! the error taxonomy that crosses the foreign boundary, input validation and
//! handle lifecycle, the fixed order of pipeline stages, and the numeric
//! post-processing of the model output.  The foreign-callable skin (raw
//! pointers, the tensor engine, the image library) lives outside this crate
//! and drives these functions.

pub mod boundary;
pub mod errors;
pub mod logger;
pub mod provider;
pub mod pipeline;
pub mod session;
