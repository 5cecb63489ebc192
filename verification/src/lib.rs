//! Verified core of a double-buffered RGB565 display pipeline for an
//! ILI9341 panel, with two small render demos (a bouncing triangle and a
//! wireframe cube).
pub mod color;
pub mod cube;
pub mod display;
pub mod framebuffer;
pub mod scene;
pub mod swapchain;
pub mod triangle;
