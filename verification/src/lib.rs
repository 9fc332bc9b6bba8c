//! A small core for rendering to a window with a GPU: the request for a
//! device, the configuration of the surface and its life across resizes, the
//! fixed render pipeline and its one pass per frame, and the frame driver
//! that keeps a frame's steps in order. Beside it stands a small model of
//! 2D coordinates and shapes.
//!
//! The library decides and never performs: it holds no GPU handle and makes
//! no call that reaches a device. Its caller carries out what it asks for.

pub mod device;
pub mod frame;
pub mod gpu;
pub mod pipeline;
pub mod pixel;
pub mod shape;
pub mod surface;
pub mod trace;

pub use pixel::{Pixel, PixelOrient};
pub use shape::{Shape, ShapeType};
