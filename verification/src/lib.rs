//! A platform-agnostic handle for a single decoded video frame.
//!
//! A [`frame::VideoFrame`] carries its dimensions together with one of three
//! physical backings: a shared CPU buffer of BGRA bytes, a CoreVideo pixel
//! buffer, or a Direct3D 11 texture. Rendering code treats every frame
//! uniformly, branching only on whether `as_bytes` exposes CPU-readable data.

pub mod digits;
pub mod frame;

pub use frame::CvPixelBuffer;
pub use frame::D3d11Texture;
pub use frame::VideoFrame;
pub use frame::VideoFrameData;
