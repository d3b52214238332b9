//! What is handed to the GPU: program sources and the geometry of fitting.
pub mod fit;
pub mod shader;
