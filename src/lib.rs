//! Verified core of a small OpenGL rendering wrapper: primitive modes,
//! vertex and buffer layout, draw-call selection, texture image checks,
//! the shader build protocol, uniform writes and window event routing.
pub mod mesh;
pub mod shaders;
pub mod texture;
pub mod window;
