//! Recording pipeline for a desktop recorder: the plan of the encoder
//! invocation, the supervisor of the encoder process, the bounded frame queue
//! of the preview sources, and the preview overlay geometry.

pub mod audio;
pub mod capture;
pub mod command;
pub mod config;
pub mod devices;
pub mod error;
pub mod probe;
pub mod session;
pub mod supervisor;
pub mod text;
pub mod video;
pub mod webcam;
