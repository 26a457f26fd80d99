//! Pixel-processing unit of a monochrome Game Boy: the mode machine that
//! paces a frame, the three layer renderers, and the pixel sink they draw to.

pub mod color;
pub mod screen;
pub mod mmu;
pub mod render;
pub mod gpu;
pub mod laws;
