//! The video frame handle and its three physical backings.

use crate::digits::{spec_decimal, u32_to_string};
use std::sync::Arc;
use vstd::prelude::*;
use vstd::string::StringExecFns;

verus! {

/// What this core reads of a CoreVideo pixel buffer: the dimensions the
/// platform handle reports when queried. The opaque handle itself never
/// enters this core; the platform layer that queried these values keeps the
/// handle and owns one reference to it for as long as the frame lives.
#[derive(Clone, Copy, PartialEq, Eq, Structural)]
pub struct CvPixelBuffer {
    /// The pixel width the handle reports.
    pub width: u32,
    /// The pixel height the handle reports.
    pub height: u32,
}

/// Stands for a Direct3D 11 texture handle. This core never reads anything
/// from the texture; it only stores and moves the handle, so nothing of the
/// handle is represented here. The platform layer keeps the handle itself and
/// owns one reference to it for as long as the frame lives.
#[derive(Clone, Copy, PartialEq, Eq, Structural)]
pub struct D3d11Texture {}

/// The physical backing of a video frame: exactly one of a CPU buffer, a
/// CoreVideo pixel buffer, or a Direct3D 11 texture.
pub enum VideoFrameData {
    /// A CPU buffer of tightly packed 4-bytes-per-pixel data in
    /// blue-green-red-alpha channel order, row-major, no padding. The buffer
    /// is shared: several frames may hold the same bytes at once, and no
    /// path ever mutates them.
    Bgra(Arc<Vec<u8>>),
    /// A CoreVideo pixel buffer living in video memory (zero-copy path).
    CoreVideo(CvPixelBuffer),
    /// A Direct3D 11 texture, together with the subresource index that picks
    /// this frame's sub-image within the texture array (zero-copy path).
    D3D11 { texture: D3d11Texture, subresource_index: u32 },
}

/// A video frame that can be painted to the screen: its dimensions in pixels
/// and one of three physical backings. A frame is fully determined at
/// construction and never mutated; a new frame is created to represent a new
/// picture.
pub struct VideoFrame {
    /// The backing. Which variant is active never changes.
    pub data: VideoFrameData,
    /// The width of the video frame in pixels.
    pub width: u32,
    /// The height of the video frame in pixels.
    pub height: u32,
}

/// Relies on `Arc::clone` from std: the clone is a second handle to the same
/// allocation, so it holds the very same vector.
#[verifier::external_body]
fn arc_clone_bytes(buffer: &Arc<Vec<u8>>) -> (r: Arc<Vec<u8>>)
    ensures
        r == *buffer,
{
    Arc::clone(buffer)
}

/// Relies on `Arc`'s `Deref` impl from std: the shared pointer hands out a
/// reference to the vector it owns.
#[verifier::external_body]
fn arc_bytes(buffer: &Arc<Vec<u8>>) -> (r: &Vec<u8>)
    ensures
        *r == **buffer,
{
    buffer
}

impl VideoFrame {
    /// The dimensions of the frame, as (width, height).
    pub open spec fn spec_size(self) -> (u32, u32) {
        (self.width, self.height)
    }

    /// The bytes a CPU-backed frame exposes; a GPU-backed frame exposes none.
    pub open spec fn spec_bytes(self) -> Option<Seq<u8>> {
        match self.data {
            VideoFrameData::Bgra(buffer) => Some(buffer@),
            VideoFrameData::CoreVideo(_) => None,
            VideoFrameData::D3D11 { .. } => None,
        }
    }

    /// A CPU-backed frame holds exactly `width * height * 4` bytes; of a
    /// GPU-backed frame nothing further is asked.
    pub open spec fn wf(self) -> bool {
        self.data matches VideoFrameData::Bgra(buffer) ==> buffer@.len() == self.width
            * self.height * 4
    }

    /// Create a video frame from raw BGRA pixel data.
    ///
    /// The buffer must hold `width * height * 4` bytes. The precondition is
    /// the only check: release code trusts the caller and performs no length
    /// test at run time, keeping construction free of per-frame cost on the
    /// decode path.
    pub fn from_bgra(buffer: Vec<u8>, width: u32, height: u32) -> (r: Self)
        requires
            buffer@.len() == width * height * 4,
        ensures
            r.width == width,
            r.height == height,
            r.spec_bytes() == Some(buffer@),
            r.wf(),
    {
        Self { data: VideoFrameData::Bgra(Arc::new(buffer)), width, height }
    }

    /// Create a video frame from an already shared BGRA buffer.
    ///
    /// This takes one more reference to the given buffer instead of copying
    /// it, for callers that already hold the bytes shared. The same length
    /// precondition applies as for [`VideoFrame::from_bgra`], and the frame
    /// exposes the very buffer that was passed in.
    pub fn from_bgra_arc(buffer: Arc<Vec<u8>>, width: u32, height: u32) -> (r: Self)
        requires
            buffer@.len() == width * height * 4,
        ensures
            r.width == width,
            r.height == height,
            r.data == VideoFrameData::Bgra(buffer),
            r.spec_bytes() == Some(buffer@),
            r.wf(),
    {
        Self { data: VideoFrameData::Bgra(buffer), width, height }
    }

    /// Create a video frame from a CoreVideo pixel buffer.
    ///
    /// The dimensions come from the handle's own report, not from the
    /// caller: the platform layer queries the handle and passes what it
    /// answered.
    pub fn from_cv_pixel_buffer(buffer: CvPixelBuffer) -> (r: Self)
        ensures
            r.width == buffer.width,
            r.height == buffer.height,
            r.data == VideoFrameData::CoreVideo(buffer),
            r.spec_bytes() is None,
            r.wf(),
    {
        let width: u32 = buffer.width;
        let height: u32 = buffer.height;
        Self { data: VideoFrameData::CoreVideo(buffer), width, height }
    }

    /// Create a video frame from a Direct3D 11 texture.
    ///
    /// The dimensions are caller-supplied, since the texture does not
    /// self-report the usable size of the sub-image; `subresource_index`
    /// picks the sub-image within the texture array (usually 0).
    pub fn from_d3d11_texture(
        texture: D3d11Texture,
        subresource_index: u32,
        width: u32,
        height: u32,
    ) -> (r: Self)
        ensures
            r.width == width,
            r.height == height,
            r.data == (VideoFrameData::D3D11 { texture, subresource_index }),
            r.spec_bytes() is None,
            r.wf(),
    {
        Self { data: VideoFrameData::D3D11 { texture, subresource_index }, width, height }
    }

    /// The short tag naming the active backing variant.
    pub open spec fn spec_data_tag(self) -> Seq<char> {
        match self.data {
            VideoFrameData::Bgra(_) => "Bgra"@,
            VideoFrameData::CoreVideo(_) => "CoreVideo"@,
            VideoFrameData::D3D11 { .. } => "D3D11"@,
        }
    }

    /// The debug description of the frame: its dimensions in decimal and the
    /// quoted tag of the active variant, and nothing else — in particular no
    /// pixel bytes and nothing read from an opaque handle.
    pub open spec fn spec_debug_repr(self) -> Seq<char> {
        "VideoFrame { width: "@ + spec_decimal(self.width as nat) + ", height: "@ + spec_decimal(
            self.height as nat,
        ) + ", data: \""@ + self.spec_data_tag() + "\" }"@
    }

    /// The short tag naming the active backing variant.
    pub fn data_tag(&self) -> (r: &'static str)
        ensures
            r@ == self.spec_data_tag(),
    {
        match &self.data {
            VideoFrameData::Bgra(_) => "Bgra",
            VideoFrameData::CoreVideo(_) => "CoreVideo",
            VideoFrameData::D3D11 { .. } => "D3D11",
        }
    }

    /// A debug description that reports width, height and the tag of the
    /// active variant, and never formats handle internals or pixel bytes.
    pub fn debug_repr(&self) -> (r: String)
        ensures
            r@ == self.spec_debug_repr(),
    {
        let mut s = "VideoFrame { width: ".to_owned();
        s.append(u32_to_string(self.width).as_str());
        s.append(", height: ");
        s.append(u32_to_string(self.height).as_str());
        s.append(", data: \"");
        s.append(self.data_tag());
        s.append("\" }");
        s
    }

    /// Get the size of this video frame in pixels.
    pub fn size(&self) -> (r: (u32, u32))
        ensures
            r == self.spec_size(),
    {
        (self.width, self.height)
    }

    /// Get the raw pixel data, if this is a CPU-backed frame.
    ///
    /// Returns `Some` exactly for the BGRA backing, with the shared bytes
    /// unchanged, and `None` for every GPU backing: this is the single point
    /// where rendering code decides between the CPU upload path and a
    /// platform-specific zero-copy path.
    pub fn as_bytes(&self) -> (r: Option<&[u8]>)
        ensures
            match r {
                Some(bytes) => self.spec_bytes() == Some(bytes@),
                None => self.spec_bytes() is None,
            },
            r is Some <==> self.data is Bgra,
    {
        match &self.data {
            VideoFrameData::Bgra(buffer) => Some(arc_bytes(buffer).as_slice()),
            VideoFrameData::CoreVideo(_) => None,
            VideoFrameData::D3D11 { .. } => None,
        }
    }
}

impl Clone for VideoFrameData {
    /// A clone holds the same backing as the original: another reference to
    /// the same shared bytes, or the same platform handle.
    fn clone(&self) -> (r: Self)
        ensures
            r == *self,
    {
        match self {
            VideoFrameData::Bgra(buffer) => VideoFrameData::Bgra(arc_clone_bytes(buffer)),
            VideoFrameData::CoreVideo(buffer) => VideoFrameData::CoreVideo(*buffer),
            VideoFrameData::D3D11 { texture, subresource_index } => VideoFrameData::D3D11 {
                texture: *texture,
                subresource_index: *subresource_index,
            },
        }
    }
}

impl Clone for VideoFrame {
    /// A clone is equal to the original frame: same dimensions, same backing.
    /// Each value owns its reference to the shared backing, so either of the
    /// two may be dropped and the other stays fully usable.
    fn clone(&self) -> (r: Self)
        ensures
            r == *self,
    {
        VideoFrame { data: self.data.clone(), width: self.width, height: self.height }
    }
}

/// Law: a frame built from an owned buffer of exactly `width * height * 4`
/// bytes exposes those very bytes through `as_bytes` and reports exactly the
/// given dimensions through `size`.
pub proof fn lemma_from_bgra_exposes_bytes(buffer: Vec<u8>, width: u32, height: u32, r: VideoFrame)
    requires
        buffer@.len() == width * height * 4,
        call_ensures(VideoFrame::from_bgra, (buffer, width, height), r),
    ensures
        r.spec_bytes() == Some(buffer@),
        r.spec_size() == (width, height),
{
}

/// Law: a frame built from an owned buffer and a frame built from an already
/// shared buffer of equal contents cannot be told apart through `size` and
/// `as_bytes`.
pub proof fn lemma_shared_and_owned_agree(
    owned: Vec<u8>,
    shared: Arc<Vec<u8>>,
    width: u32,
    height: u32,
    f: VideoFrame,
    g: VideoFrame,
)
    requires
        owned@ == shared@,
        call_ensures(VideoFrame::from_bgra, (owned, width, height), f),
        call_ensures(VideoFrame::from_bgra_arc, (shared, width, height), g),
    ensures
        f.spec_size() == g.spec_size(),
        f.spec_bytes() == g.spec_bytes(),
{
}

/// Law: a frame whose backing is GPU-resident exposes no bytes, whichever of
/// the two GPU backings it has.
pub proof fn lemma_gpu_backed_no_bytes(frame: VideoFrame)
    requires
        !(frame.data is Bgra),
    ensures
        frame.spec_bytes() is None,
{
}

/// Law: a clone of a frame behaves exactly as the original under `size` and
/// `as_bytes`, whichever variant backs it, so the original may be dropped
/// and the clone stands in for it.
pub proof fn lemma_clone_indistinguishable(original: VideoFrame, copy: VideoFrame)
    requires
        call_ensures(VideoFrame::clone, (&original,), copy),
    ensures
        copy.spec_size() == original.spec_size(),
        copy.spec_bytes() == original.spec_bytes(),
        copy.spec_debug_repr() == original.spec_debug_repr(),
{
}

} // verus!
