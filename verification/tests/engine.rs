use audio_engine::buffer::AudioBuffer;
use audio_engine::config::{BufferSize, StreamConfig};
use audio_engine::engine::{
    capture_input_i16, capture_input_raw, capture_input_u16, render_output_i16,
    render_output_raw, render_output_u16, BeepState,
};
use audio_engine::sample::{SAMPLE_ONE, U16_SILENCE};

#[test]
fn output_replicates_one_sample_across_the_frame() {
    let mut buffer = AudioBuffer::new();
    buffer.push(&vec![SAMPLE_ONE, -SAMPLE_ONE]);
    let out = render_output_i16(&mut buffer, 4, 2);
    assert_eq!(out, vec![32767, 32767, -32767, -32767]);
    assert_eq!(buffer.length(), 0);
}

#[test]
fn output_underrun_fills_with_silence_mid_delivery() {
    // An output stream over StreamConfig { channels: 2, sample_rate: 44100,
    // buffer_size: Default } whose buffer holds fewer samples than one
    // callback period: the remaining slots are filled with silence.
    let config = StreamConfig {
        channels: 2,
        sample_rate: 44100,
        buffer_size: BufferSize::Default,
    };
    let mut buffer = AudioBuffer::new();
    buffer.push(&vec![SAMPLE_ONE, SAMPLE_ONE / 2, -SAMPLE_ONE]);
    // One callback period of 8 frames asks for more than the 3 buffered
    // samples.
    let slots = 8 * config.channels as usize;
    let out = render_output_raw(&mut buffer, slots, config.channels as usize);
    assert_eq!(out.len(), 16);
    assert_eq!(&out[0..6], &[
        SAMPLE_ONE,
        SAMPLE_ONE,
        SAMPLE_ONE / 2,
        SAMPLE_ONE / 2,
        -SAMPLE_ONE,
        -SAMPLE_ONE,
    ]);
    assert!(out[6..].iter().all(|&s| s == 0));
    assert_eq!(buffer.length(), 0);
}

#[test]
fn output_underrun_i16_silence_is_zero() {
    let mut buffer = AudioBuffer::new();
    let out = render_output_i16(&mut buffer, 6, 2);
    assert_eq!(out, vec![0; 6]);
}

#[test]
fn output_underrun_u16_silence_is_mid_scale() {
    let mut buffer = AudioBuffer::new();
    let out = render_output_u16(&mut buffer, 6, 3);
    assert_eq!(out, vec![U16_SILENCE; 6]);
}

#[test]
fn output_u16_converts_with_the_documented_scaling() {
    let mut buffer = AudioBuffer::new();
    buffer.push(&vec![-SAMPLE_ONE, 0, SAMPLE_ONE]);
    let out = render_output_u16(&mut buffer, 3, 1);
    assert_eq!(out, vec![0, 32767, 65535]);
}

#[test]
fn output_partial_trailing_frame_still_consumes_a_sample() {
    let mut buffer = AudioBuffer::new();
    buffer.push(&vec![10, 20]);
    // 3 slots at 2 channels: frame 0 fills slots 0 and 1, the partial frame
    // fills slot 2 and still consumes the second sample.
    let out = render_output_raw(&mut buffer, 3, 2);
    assert_eq!(out, vec![10, 10, 20]);
    assert_eq!(buffer.length(), 0);
}

#[test]
fn input_takes_first_channel_of_each_frame() {
    let mut buffer = AudioBuffer::new();
    capture_input_raw(&mut buffer, &vec![10, 11, 12, 13, 14], 2);
    assert_eq!(buffer.pop_one(), Some(10));
    assert_eq!(buffer.pop_one(), Some(12));
    assert_eq!(buffer.pop_one(), Some(14));
    assert_eq!(buffer.pop_one(), None);
}

#[test]
fn input_i16_converts_with_the_exact_inverse_scaling() {
    let mut buffer = AudioBuffer::new();
    capture_input_i16(&mut buffer, &vec![100, -5, 200, 7], 2);
    assert_eq!(buffer.pop_one(), Some(100 * 65535));
    assert_eq!(buffer.pop_one(), Some(200 * 65535));
    assert_eq!(buffer.pop_one(), None);
}

#[test]
fn input_u16_converts_with_the_exact_inverse_scaling() {
    let mut buffer = AudioBuffer::new();
    capture_input_u16(&mut buffer, &vec![0, 1, 65535, 2], 2);
    assert_eq!(buffer.pop_one(), Some(-SAMPLE_ONE));
    assert_eq!(buffer.pop_one(), Some(SAMPLE_ONE));
    assert_eq!(buffer.pop_one(), None);
}

#[test]
fn input_of_empty_delivery_adds_nothing() {
    let mut buffer = AudioBuffer::new();
    capture_input_raw(&mut buffer, &vec![], 2);
    assert_eq!(buffer.length(), 0);
}

#[test]
fn beep_phase_wraps_modulo_sample_rate() {
    let mut beep = BeepState::new(4);
    assert_eq!(beep.advance(), 1);
    assert_eq!(beep.advance(), 2);
    assert_eq!(beep.advance(), 3);
    assert_eq!(beep.advance(), 0);
    assert_eq!(beep.advance(), 1);
    assert_eq!(beep.sample_rate, 4);
}
