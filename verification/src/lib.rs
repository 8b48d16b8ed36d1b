//! Image preparation pipeline for pre-trained classification networks.
//!
//! The crate turns a decoded RGB image into a numeric tensor that an
//! inference engine accepts, through an ordered sequence of transform
//! steps (resize, cast to a numeric array, normalize, transpose), and
//! keeps a static catalog binding each supported architecture to its
//! preprocessing recipe, input shape, output layer and weight source.

pub mod architectures;
pub mod events;
pub mod functions;
pub mod models;
pub mod pipeline;
pub mod utils;
