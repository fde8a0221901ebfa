use genx_delay::reverse_delay::{GrainTap, ReverseDelayLine};
use std::f32::consts::PI;

/// Hann window weight of a grain that is `counter` reads into a chunk.
fn hann(counter: usize, chunk_size: usize) -> f32 {
    let t = counter as f32 / chunk_size as f32;
    0.5 * (1.0 - (2.0 * PI * t).cos())
}

/// Windowed sum of the two grain taps; silence when there are none.
fn windowed(taps: Option<(GrainTap<f32>, GrainTap<f32>)>) -> f32 {
    match taps {
        Some((a, b)) => {
            a.sample * hann(a.counter, a.chunk_size) + b.sample * hann(b.counter, b.chunk_size)
        }
        None => 0.0,
    }
}

#[test]
fn initializes_without_panic() {
    let mut rdl: ReverseDelayLine<f32> = ReverseDelayLine::default();
    rdl.initialize(110250, 13230, 0.0);
    assert_eq!(rdl.capacity(), 110251);
}

#[test]
fn reset_clears_buffer() {
    let mut rdl: ReverseDelayLine<f32> = ReverseDelayLine::default();
    rdl.initialize(44100, 13230, 0.0);
    rdl.write(1.0);
    rdl.write(0.5);
    rdl.reset(0.0);
    // Without writes the grains walk backwards through every slot: first to
    // the end of the chunk they hold, then through a chunk as long as the line.
    let capacity = rdl.capacity();
    for _ in 0..(13230 + 2 * capacity) {
        let (a, b) = rdl.read(capacity).unwrap();
        assert!(a.sample == 0.0 && b.sample == 0.0);
    }
}

#[test]
fn produces_output_after_filling() {
    let mut rdl: ReverseDelayLine<f32> = ReverseDelayLine::default();
    rdl.initialize(44100, 13230, 0.0);

    // Fill with a ramp
    let chunk = 4410; // 100ms at 44.1kHz
    for i in 0..(chunk * 2) {
        rdl.write((i as f32) / (chunk as f32));
        let _ = rdl.read(chunk);
    }

    // After two full chunks, grains should be producing non-zero output
    rdl.write(1.0);
    let out = windowed(rdl.read(chunk));
    let mut has_nonzero = false;
    for _ in 0..chunk {
        rdl.write(1.0);
        let o = windowed(rdl.read(chunk));
        if o.abs() > 0.001 {
            has_nonzero = true;
            break;
        }
    }
    assert!(has_nonzero || out.abs() > 0.0, "Reverse delay should produce non-zero output");
}

#[test]
fn hann_windows_sum_to_unity() {
    // Two Hann windows offset by half a period should sum to 1.0
    let n = 1000;
    let half = n / 2;
    for i in 0..n {
        let t0 = i as f32 / n as f32;
        let t1 = ((i + half) % n) as f32 / n as f32;
        let w0 = 0.5 * (1.0 - (2.0 * PI * t0).cos());
        let w1 = 0.5 * (1.0 - (2.0 * PI * t1).cos());
        let sum = w0 + w1;
        assert!(
            (sum - 1.0).abs() < 0.001,
            "Hann windows should sum to 1.0, got {sum} at i={i}"
        );
    }
}

#[test]
fn grain_windows_sum_to_unity_while_the_chunk_length_holds() {
    let mut rdl: ReverseDelayLine<f32> = ReverseDelayLine::default();
    rdl.initialize(999, 400, 0.0);
    for _ in 0..3000 {
        rdl.write(1.0);
        let (a, b) = rdl.read(400).unwrap();
        assert_eq!(a.chunk_size, 400);
        assert_eq!(b.chunk_size, 400);
        assert_eq!(b.counter, (a.counter + 200) % 400);
        let sum = hann(a.counter, a.chunk_size) + hann(b.counter, b.chunk_size);
        assert!((sum - 1.0).abs() < 0.001, "weights sum to {sum}");
    }
}

#[test]
fn fresh_grains_start_half_a_chunk_apart() {
    let mut rdl: ReverseDelayLine<f32> = ReverseDelayLine::default();
    rdl.initialize(99, 30, 0.0);
    let (a, b) = rdl.read(30).unwrap();
    assert_eq!((a.counter, a.chunk_size), (0, 30));
    assert_eq!((b.counter, b.chunk_size), (15, 30));
    let (a, b) = rdl.read(30).unwrap();
    assert_eq!((a.counter, b.counter), (1, 16));
}

#[test]
fn line_without_capacity_reads_nothing_and_does_not_move() {
    let mut rdl: ReverseDelayLine<f32> = ReverseDelayLine::default();
    assert_eq!(rdl.capacity(), 0);
    rdl.write(1.0);
    assert!(rdl.read(10).is_none());
    assert!(rdl.read(10).is_none());
    assert_eq!(windowed(rdl.read(10)), 0.0);
    // Once sized, the grains start from the beginning.
    rdl.initialize(9, 4, 0.0);
    let (a, b) = rdl.read(4).unwrap();
    assert_eq!((a.counter, b.counter), (0, 2));
}

#[test]
fn grain_plays_the_stored_chunk_backwards() {
    let mut rdl: ReverseDelayLine<i32> = ReverseDelayLine::default();
    rdl.initialize(99, 8, 0);
    // Frames of read-then-write with a ramp as input.
    let mut first_taps = Vec::new();
    for i in 0..40 {
        let (a, _) = rdl.read(8).unwrap();
        first_taps.push((a.counter, a.sample));
        rdl.write(100 + i);
    }
    // The first grain re-anchors in frame 7, on the sample written in frame 6,
    // and then walks back one stored sample per frame.
    assert_eq!(first_taps[8], (0, 106));
    assert_eq!(first_taps[9], (1, 105));
    assert_eq!(first_taps[10], (2, 104));
    assert_eq!(first_taps[14], (6, 100));
    // One step further back lies a slot that was never written.
    assert_eq!(first_taps[15], (7, 0));
    // Next chunk: anchored in frame 15 on the sample of frame 14.
    assert_eq!(first_taps[16], (0, 114));
    assert_eq!(first_taps[17], (1, 113));
    assert_eq!(first_taps[23], (7, 107));
}

#[test]
fn backward_read_wraps_round_the_store() {
    let mut rdl: ReverseDelayLine<i32> = ReverseDelayLine::default();
    rdl.initialize(3, 4, 0);
    // Slots 0..3 hold 10, 11, 12, 13; the cursor is back at slot 0.
    for i in 0..4 {
        rdl.write(10 + i);
    }
    // Anchored at slot 0, the first grain reads slots 0, 3, 2, 1.
    let seen: Vec<i32> = (0..4).map(|_| rdl.read(4).unwrap().0.sample).collect();
    assert_eq!(seen, vec![10, 13, 12, 11]);
    // Then it re-anchors on the last written slot, slot 3.
    let seen: Vec<i32> = (0..4).map(|_| rdl.read(4).unwrap().0.sample).collect();
    assert_eq!(seen, vec![13, 12, 11, 10]);
}

#[test]
fn chunk_longer_than_the_store_keeps_reading_round_the_circle() {
    let mut rdl: ReverseDelayLine<i32> = ReverseDelayLine::default();
    rdl.initialize(2, 7, 0);
    for i in 0..3 {
        rdl.write(20 + i);
    }
    // Three slots, a chunk of seven: slots 0, 2, 1, 0, 2, 1, 0.
    let seen: Vec<i32> = (0..7).map(|_| rdl.read(7).unwrap().0.sample).collect();
    assert_eq!(seen, vec![20, 22, 21, 20, 22, 21, 20]);
}

#[test]
fn new_chunk_length_is_taken_up_at_the_grain_boundary_only() {
    let mut rdl: ReverseDelayLine<f32> = ReverseDelayLine::default();
    rdl.initialize(99, 10, 0.0);
    let mut first = Vec::new();
    let mut second = Vec::new();
    for _ in 0..14 {
        rdl.write(0.0);
        let (a, b) = rdl.read(6).unwrap();
        first.push((a.counter, a.chunk_size));
        second.push((b.counter, b.chunk_size));
    }
    // The first grain plays out its chunk of ten before it takes up six.
    assert_eq!(first[9], (9, 10));
    assert_eq!(first[10], (0, 6));
    assert_eq!(first[13], (3, 6));
    // The second grain was five reads in, so it changes over after five more.
    assert_eq!(second[4], (9, 10));
    assert_eq!(second[5], (0, 6));
    assert_eq!(second[11], (0, 6));
}

#[test]
fn chunk_length_is_two_at_the_least() {
    let mut rdl: ReverseDelayLine<f32> = ReverseDelayLine::default();
    rdl.initialize(9, 2, 0.0);
    let mut sizes = Vec::new();
    for request in [0usize, 0, 1, 1, 0, 1] {
        let (a, _) = rdl.read(request).unwrap();
        sizes.push((a.counter, a.chunk_size));
    }
    assert_eq!(sizes, vec![(0, 2), (1, 2), (0, 2), (1, 2), (0, 2), (1, 2)]);
}

#[test]
fn reset_restarts_the_grains_with_the_chunk_they_held() {
    let mut rdl: ReverseDelayLine<f32> = ReverseDelayLine::default();
    rdl.initialize(99, 10, 0.0);
    for _ in 0..10 {
        rdl.write(1.0);
        let _ = rdl.read(6);
    }
    // The first grain holds a chunk of six by now.
    rdl.reset(0.0);
    assert_eq!(rdl.capacity(), 100);
    let (a, b) = rdl.read(6).unwrap();
    assert_eq!((a.counter, a.chunk_size, a.sample), (0, 6, 0.0));
    assert_eq!((b.counter, b.chunk_size, b.sample), (3, 6, 0.0));
}

#[test]
fn zero_default_chunk_is_replaced_at_the_first_read() {
    let mut rdl: ReverseDelayLine<f32> = ReverseDelayLine::default();
    rdl.initialize(9, 0, 0.0);
    let (a, b) = rdl.read(5).unwrap();
    assert_eq!((a.counter, a.chunk_size), (0, 0));
    assert_eq!((b.counter, b.chunk_size), (0, 0));
    let (a, b) = rdl.read(5).unwrap();
    assert_eq!((a.counter, a.chunk_size), (0, 5));
    assert_eq!((b.counter, b.chunk_size), (0, 5));
}

#[test]
fn clone_is_in_the_same_state_and_goes_its_own_way() {
    let mut rdl: ReverseDelayLine<i32> = ReverseDelayLine::default();
    rdl.initialize(9, 6, 0);
    for i in 0..14 {
        let _ = rdl.read(4);
        rdl.write(50 + i);
    }
    let mut copy = rdl.clone();
    assert_eq!(copy.capacity(), 10);
    for _ in 0..25 {
        let (a, b) = rdl.read(4).unwrap();
        let (c, d) = copy.read(4).unwrap();
        assert_eq!((a.sample, a.counter, a.chunk_size), (c.sample, c.counter, c.chunk_size));
        assert_eq!((b.sample, b.counter, b.chunk_size), (d.sample, d.counter, d.chunk_size));
        rdl.write(7);
        copy.write(7);
    }
    // From here on only the copy is written to.
    copy.write(99);
    let mut differs = false;
    for _ in 0..12 {
        let (a, _) = rdl.read(4).unwrap();
        let (c, _) = copy.read(4).unwrap();
        differs = differs || a.sample != c.sample;
    }
    assert!(differs);
}
