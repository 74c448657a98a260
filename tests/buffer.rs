use wasm_vis::buffer::{ConfigError, Height, Point, SampleBuffer, MAX_POINTS};

fn wave_height(h: Height) -> f32 {
    match h {
        Height::Wave { index, phase } => {
            ((2 * index) as f32 / 10.0 + phase as f32 / 2.0).sin() * 50.0
        }
        Height::Sample { bits } => f32::from_bits(bits),
    }
}

#[test]
fn new_rejects_width_over_maximum() {
    assert_eq!(SampleBuffer::new(4001).err(), Some(ConfigError::TooWide));
    assert_eq!(SampleBuffer::new(u32::MAX).err(), Some(ConfigError::TooWide));
}

#[test]
fn new_rejects_zero_width() {
    assert_eq!(SampleBuffer::new(0).err(), Some(ConfigError::ZeroWidth));
}

#[test]
fn new_accepts_largest_width() {
    let b = SampleBuffer::new(MAX_POINTS as u32).unwrap();
    assert_eq!(b.capacity(), 8000);
    assert_eq!(b.points_len(), 4000);
    assert_eq!(b.write_cursor(), 0);
    assert_eq!(b.sample_index(), 0);
}

#[test]
fn new_buffer_is_at_origin() {
    let b = SampleBuffer::new(3).unwrap();
    assert_eq!(b.capacity(), 6);
    for p in b.points() {
        assert_eq!(*p, Point { x: 0, y: Height::Sample { bits: 0 } });
    }
}

#[test]
fn rewrite_sets_x_coordinates_in_order() {
    for width in [1u32, 2, 7, 640, 4000] {
        let mut b = SampleBuffer::new(width).unwrap();
        b.rewrite(17);
        assert_eq!(b.points().len() * 2, b.capacity());
        for (k, p) in b.points().iter().enumerate() {
            assert_eq!(p.x, k as u32);
        }
    }
}

#[test]
fn rewrite_phase_zero_on_four_points() {
    let mut b = SampleBuffer::new(4).unwrap();
    b.rewrite(0);
    let expected = [0.0f32, 0.2f32.sin() * 50.0, 0.4f32.sin() * 50.0, 0.6f32.sin() * 50.0];
    assert_eq!(b.points().len(), 4);
    for (k, p) in b.points().iter().enumerate() {
        assert_eq!(p.x, k as u32);
        assert_eq!(p.y, Height::Wave { index: k as u32, phase: 0 });
        assert!((wave_height(p.y) - expected[k]).abs() < 1e-6);
    }
}

#[test]
fn second_rewrite_leaves_nothing_of_first() {
    let mut b = SampleBuffer::new(5).unwrap();
    b.rewrite(3);
    b.rewrite(8);
    let mut fresh = SampleBuffer::new(5).unwrap();
    fresh.rewrite(8);
    assert_eq!(b.points(), fresh.points());
    for (k, p) in b.points().iter().enumerate() {
        assert_eq!(p.y, Height::Wave { index: k as u32, phase: 8 });
    }
}

#[test]
fn rewrite_twice_same_phase_is_identical() {
    let mut b = SampleBuffer::new(6).unwrap();
    b.rewrite(42);
    let first = b.points().clone();
    b.rewrite(42);
    assert_eq!(*b.points(), first);
}

#[test]
fn rewrite_keeps_streaming_cursors() {
    let mut b = SampleBuffer::new(3).unwrap();
    b.add_point(7);
    b.rewrite(1);
    assert_eq!(b.write_cursor(), 2);
    assert_eq!(b.sample_index(), 1);
}

#[test]
fn add_point_writes_and_wraps() {
    let mut b = SampleBuffer::new(2).unwrap();
    b.add_point(10);
    assert_eq!(b.points()[0], Point { x: 0, y: Height::Sample { bits: 10 } });
    assert_eq!(b.write_cursor(), 2);
    assert_eq!(b.sample_index(), 1);
    b.add_point(11);
    assert_eq!(b.points()[1], Point { x: 1, y: Height::Sample { bits: 11 } });
    assert_eq!(b.write_cursor(), 0);
    assert_eq!(b.sample_index(), 0);
    b.add_point(12);
    assert_eq!(b.points()[0], Point { x: 0, y: Height::Sample { bits: 12 } });
    assert_eq!(b.points()[1], Point { x: 1, y: Height::Sample { bits: 11 } });
    assert_eq!(b.write_cursor(), 2);
    assert_eq!(b.sample_index(), 1);
}

#[test]
fn add_point_on_single_point_buffer() {
    let mut b = SampleBuffer::new(1).unwrap();
    b.add_point(1.5f32.to_bits());
    assert_eq!(b.write_cursor(), 0);
    assert_eq!(b.sample_index(), 0);
    assert_eq!(wave_height(b.points()[0].y), 1.5);
}
