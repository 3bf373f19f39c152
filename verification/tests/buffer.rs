use audio_engine::buffer::AudioBuffer;
use audio_engine::sample::SAMPLE_ONE;

#[test]
fn test_audio_buffer() {
    let buffer = AudioBuffer::new();
    assert_eq!(buffer.length(), 0);

    let mut buffer = buffer;
    buffer.clear();
    assert_eq!(buffer.length(), 0);
}

#[test]
fn push_then_pop_preserves_order() {
    let mut buffer = AudioBuffer::new();
    let samples: Vec<i64> = (1..=10).map(|i| i as i64 * 1000).collect();
    buffer.push(&samples);
    for expected in &samples {
        assert_eq!(buffer.pop_one(), Some(*expected));
    }
    assert_eq!(buffer.pop_one(), None);
}

#[test]
fn two_pushes_stay_contiguous_and_ordered() {
    let mut buffer = AudioBuffer::new();
    buffer.push(&vec![1, 2, 3]);
    buffer.push(&vec![4, 5]);
    for expected in 1..=5 {
        assert_eq!(buffer.pop_one(), Some(expected));
    }
    assert_eq!(buffer.pop_one(), None);
}

#[test]
fn clear_after_content_reports_zero_length() {
    let mut buffer = AudioBuffer::new();
    buffer.push(&vec![7, 8, 9]);
    assert_eq!(buffer.length(), 3);
    buffer.clear();
    assert_eq!(buffer.length(), 0);
    assert_eq!(buffer.pop_one(), None);
}

#[test]
fn pop_from_empty_reports_empty() {
    let mut buffer = AudioBuffer::new();
    assert_eq!(buffer.pop_one(), None);
    assert_eq!(buffer.length(), 0);
}

#[test]
fn hundred_halves_pop_fifty() {
    // Push 100 samples of value one half, pop 50: the length reads 50 and
    // the next popped sample is again one half.
    let half: i64 = SAMPLE_ONE / 2;
    let mut buffer = AudioBuffer::new();
    buffer.push(&vec![half; 100]);
    for _ in 0..50 {
        assert_eq!(buffer.pop_one(), Some(half));
    }
    assert_eq!(buffer.length(), 50);
    assert_eq!(buffer.pop_one(), Some(half));
}
