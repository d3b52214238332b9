//! Fragment-program composition and typed uniform binding for still-image
//! transitions.
//!
//! A transition is a GLSL function `vec4 transition(vec2 uv)` taken from a
//! catalog of named shaders. This crate wraps such a function into a complete
//! fragment program for one of three aspect-ratio strategies, and resolves the
//! shader's declared parameters into a table of typed uniform values. Window
//! creation, texture decoding and drawing are left to the caller.
pub mod builder;
pub mod catalog;
pub mod error;
pub mod gl;
pub mod json;
pub mod params;
pub mod plan;
pub mod text;
pub mod uniforms;
