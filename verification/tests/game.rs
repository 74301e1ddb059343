use crusty_handmade::game::{render_weird_gradient, GameOffscreenBuffer};

#[test]
fn pitch_and_memory_size() {
    let buffer = GameOffscreenBuffer {
        memory: vec![0; 1280 * 720],
        width: 1280,
        height: 720,
        bytes_per_pixel: 4,
    };
    assert_eq!(buffer.pitch(), 5120);
    assert_eq!(buffer.memory_size(), 3_686_400);
}

#[test]
fn gradient_without_offset() {
    let mut buffer =
        GameOffscreenBuffer { memory: vec![0xFFFF_FFFF; 6], width: 3, height: 2, bytes_per_pixel: 4 };
    render_weird_gradient(&mut buffer, 0, 0);
    assert_eq!(buffer.memory, [0x0000, 0x0001, 0x0002, 0x0100, 0x0101, 0x0102]);
    assert_eq!((buffer.width, buffer.height, buffer.bytes_per_pixel), (3, 2, 4));
}

#[test]
fn gradient_wraps_at_a_byte() {
    let mut buffer =
        GameOffscreenBuffer { memory: vec![0; 4], width: 2, height: 2, bytes_per_pixel: 4 };
    render_weird_gradient(&mut buffer, 255, 511);
    assert_eq!(buffer.memory, [0xFFFF, 0xFF00, 0x00FF, 0x0000]);
}

#[test]
fn gradient_with_negative_offsets() {
    let mut buffer =
        GameOffscreenBuffer { memory: vec![0; 2], width: 2, height: 1, bytes_per_pixel: 4 };
    render_weird_gradient(&mut buffer, -1, -2);
    assert_eq!(buffer.memory, [0xFEFF, 0xFE00]);
}

#[test]
fn gradient_of_an_empty_frame() {
    let mut buffer =
        GameOffscreenBuffer { memory: vec![], width: 0, height: 0, bytes_per_pixel: 4 };
    render_weird_gradient(&mut buffer, i32::MAX, i32::MAX);
    assert!(buffer.memory.is_empty());
}
