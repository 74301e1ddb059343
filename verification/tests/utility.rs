use crusty_handmade::utility::audio::BufferAudioSource;
use crusty_handmade::utility::ring_buffer::RingBuffer;
use crusty_handmade::utility::{gigabytes, kilobytes, megabytes, terrabytes};

#[test]
fn byte_sizes() {
    assert_eq!(kilobytes(0), 0);
    assert_eq!(kilobytes(3), 3072);
    assert_eq!(megabytes(64), 67_108_864);
    assert_eq!(gigabytes(4), 4_294_967_296);
    assert_eq!(terrabytes(2), 2_199_023_255_552);
}

#[test]
fn source_starts_without_a_rate() {
    let source: BufferAudioSource<i16> = BufferAudioSource::new(RingBuffer::with_default(8));
    assert_eq!(source.sample_rate(), None);
    assert_eq!(source.to_fill(), 0);
}

#[test]
fn sample_takes_one_frame() {
    let mut source: BufferAudioSource<i16> = BufferAudioSource::new(RingBuffer::with_default(8));
    assert_eq!(source.buffer.write_from(&[1, 2, 3]), 3);
    assert_eq!(source.sample(48000, 0), (1, 2));
    assert_eq!(source.sample_rate(), Some(48000));
    assert_eq!(source.buffer.len(), 1);
    assert_eq!(source.sample(44100, -7), (3, -7));
    assert_eq!(source.sample_rate(), Some(44100));
    assert_eq!(source.sample(44100, -7), (-7, -7));
    assert_eq!(source.buffer.len(), 0);
}

#[test]
fn sample_takes_a_frame_across_the_wrap() {
    let ring: RingBuffer<i16> = RingBuffer {
        capacity: 4,
        buffer: vec![20, 0, 0, 10],
        head: 3,
        tail: 1,
        len: 2,
    };
    let mut source = BufferAudioSource::new(ring);
    assert_eq!(source.sample(8000, 0), (10, 20));
    assert_eq!(source.buffer.head, 1);
}

#[test]
fn to_fill_tops_up_to_a_fifteenth_of_a_second() {
    let mut source: BufferAudioSource<i16> =
        BufferAudioSource::new(RingBuffer::with_default(96000));
    source.sample(48000, 0);
    assert_eq!(source.to_fill(), 6400);
    source.buffer.write_buffers(6000);
    assert_eq!(source.to_fill(), 400);
    source.buffer.write_buffers(400);
    assert_eq!(source.to_fill(), 0);
}
