use std::sync::Arc;
use video_frame::{CvPixelBuffer, D3d11Texture, VideoFrame};

fn sample_bytes(width: u32, height: u32) -> Vec<u8> {
    let n = (width * height * 4) as usize;
    (0..n).map(|i| (i % 251) as u8).collect()
}

#[test]
fn from_bgra_exposes_bytes_and_size() {
    let bytes = sample_bytes(2, 2);
    let frame = VideoFrame::from_bgra(bytes.clone(), 2, 2);
    assert_eq!(frame.size(), (2, 2));
    assert_eq!(frame.as_bytes(), Some(bytes.as_slice()));
}

#[test]
fn from_bgra_single_pixel() {
    let frame = VideoFrame::from_bgra(vec![10, 20, 30, 255], 1, 1);
    assert_eq!(frame.size(), (1, 1));
    assert_eq!(frame.as_bytes(), Some([10, 20, 30, 255].as_slice()));
}

#[test]
fn from_bgra_zero_dimensions_empty_buffer() {
    let frame = VideoFrame::from_bgra(Vec::new(), 0, 0);
    assert_eq!(frame.size(), (0, 0));
    assert_eq!(frame.as_bytes(), Some([].as_slice()));
}

#[test]
fn shared_and_owned_are_observationally_equal() {
    let bytes = sample_bytes(3, 2);
    let shared = Arc::new(bytes.clone());
    let owned_frame = VideoFrame::from_bgra(bytes, 3, 2);
    let shared_frame = VideoFrame::from_bgra_arc(shared, 3, 2);
    assert_eq!(owned_frame.size(), shared_frame.size());
    assert_eq!(owned_frame.as_bytes(), shared_frame.as_bytes());
}

#[test]
fn shared_buffer_aliased_by_two_frames() {
    let shared = Arc::new(sample_bytes(2, 1));
    let first = VideoFrame::from_bgra_arc(Arc::clone(&shared), 2, 1);
    let second = VideoFrame::from_bgra_arc(Arc::clone(&shared), 2, 1);
    assert_eq!(first.as_bytes(), Some(shared.as_slice()));
    assert_eq!(second.as_bytes(), Some(shared.as_slice()));
    drop(first);
    assert_eq!(second.as_bytes(), Some(shared.as_slice()));
}

#[test]
fn mismatched_length_does_not_panic_in_release_path() {
    // The length equation is a statically checked precondition for verified
    // callers; at run time construction performs no check and never panics.
    let frame = VideoFrame::from_bgra(vec![0; 10], 2, 2);
    assert_eq!(frame.size(), (2, 2));
}

#[test]
fn cv_pixel_buffer_frame_has_no_bytes_and_reported_size() {
    let frame = VideoFrame::from_cv_pixel_buffer(CvPixelBuffer { width: 1920, height: 1080 });
    assert_eq!(frame.size(), (1920, 1080));
    assert!(frame.as_bytes().is_none());
}

#[test]
fn d3d11_texture_frame_has_no_bytes_and_given_size() {
    let frame = VideoFrame::from_d3d11_texture(D3d11Texture {}, 0, 1280, 720);
    assert_eq!(frame.size(), (1280, 720));
    assert!(frame.as_bytes().is_none());
}

#[test]
fn d3d11_texture_frame_keeps_subresource_index() {
    let frame = VideoFrame::from_d3d11_texture(D3d11Texture {}, 3, 64, 64);
    match frame.data {
        video_frame::VideoFrameData::D3D11 { subresource_index, .. } => {
            assert_eq!(subresource_index, 3);
        }
        _ => panic!("expected the texture backing"),
    }
}

#[test]
fn debug_repr_names_dimensions_and_tag_only() {
    let frame = VideoFrame::from_bgra(sample_bytes(4, 4), 4, 4);
    let repr = frame.debug_repr();
    assert_eq!(repr, "VideoFrame { width: 4, height: 4, data: \"Bgra\" }");
    assert!(repr.contains("Bgra"));
    assert!(repr.contains("4"));
}

#[test]
fn debug_repr_of_gpu_backed_frames() {
    let cv = VideoFrame::from_cv_pixel_buffer(CvPixelBuffer { width: 640, height: 480 });
    assert_eq!(
        cv.debug_repr(),
        "VideoFrame { width: 640, height: 480, data: \"CoreVideo\" }"
    );
    let tex = VideoFrame::from_d3d11_texture(D3d11Texture {}, 0, 800, 600);
    assert_eq!(
        tex.debug_repr(),
        "VideoFrame { width: 800, height: 600, data: \"D3D11\" }"
    );
}

#[test]
fn clone_survives_dropping_the_original() {
    let bytes = sample_bytes(2, 2);
    let original = VideoFrame::from_bgra(bytes.clone(), 2, 2);
    let copy = original.clone();
    drop(original);
    assert_eq!(copy.size(), (2, 2));
    assert_eq!(copy.as_bytes(), Some(bytes.as_slice()));
}

#[test]
fn clone_of_gpu_backed_frames_matches_original() {
    let cv = VideoFrame::from_cv_pixel_buffer(CvPixelBuffer { width: 320, height: 200 });
    let cv_copy = cv.clone();
    drop(cv);
    assert_eq!(cv_copy.size(), (320, 200));
    assert!(cv_copy.as_bytes().is_none());

    let tex = VideoFrame::from_d3d11_texture(D3d11Texture {}, 1, 16, 16);
    let tex_copy = tex.clone();
    drop(tex);
    assert_eq!(tex_copy.size(), (16, 16));
    assert!(tex_copy.as_bytes().is_none());
}

#[test]
fn decimal_rendering_exact_values() {
    assert_eq!(video_frame::digits::u32_to_string(0), "0");
    assert_eq!(video_frame::digits::u32_to_string(7), "7");
    assert_eq!(video_frame::digits::u32_to_string(10), "10");
    assert_eq!(video_frame::digits::u32_to_string(1080), "1080");
    assert_eq!(video_frame::digits::u32_to_string(u32::MAX), "4294967295");
}
