use d3d12_practice::{
    back_buffer_handles, buffer_size_in_bytes, descriptor_handle, set_scissor_rect, Rect,
};

#[test]
fn buffer_sizes() {
    assert_eq!(buffer_size_in_bytes(4, 20), Some(80));
    assert_eq!(buffer_size_in_bytes(6, 2), Some(12));
    assert_eq!(buffer_size_in_bytes(0, 20), Some(0));
    assert_eq!(buffer_size_in_bytes(5, 0), Some(0));
    assert_eq!(buffer_size_in_bytes(1 << 31, 2), None);
    assert_eq!(buffer_size_in_bytes(u32::MAX as usize, 1), Some(u32::MAX));
    assert_eq!(buffer_size_in_bytes(usize::MAX, 2), None);
}

#[test]
fn descriptor_handles() {
    assert_eq!(descriptor_handle(1000, 0, 32), Some(1000));
    assert_eq!(descriptor_handle(1000, 3, 32), Some(1096));
    assert_eq!(descriptor_handle(usize::MAX, 1, 1), None);
    assert_eq!(descriptor_handle(usize::MAX, 0, 1), Some(usize::MAX));
}

#[test]
fn back_buffer_handle_list() {
    assert_eq!(back_buffer_handles(1000, 2, 32), Some(vec![1000, 1032]));
    assert_eq!(back_buffer_handles(1000, 0, 32), Some(vec![]));
    assert_eq!(back_buffer_handles(usize::MAX, 1, 32), Some(vec![usize::MAX]));
    assert_eq!(back_buffer_handles(usize::MAX - 10, 2, 32), None);
}

#[test]
fn scissor_rect_covers_target() {
    assert_eq!(
        set_scissor_rect(1280, 720),
        Rect { left: 0, top: 0, right: 1280, bottom: 720 }
    );
}
