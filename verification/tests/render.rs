use output_stream::render::{
    fill_buffer, output_sample, render_i16, render_i32, render_i64, render_i8, render_u16, render_u32,
    render_u64, render_u8, silence_i16, silence_i32, silence_i64, silence_i8, silence_u16, silence_u32,
    silence_u64, silence_u8, Exhausted, SampleSource,
};

/// A source that yields what it was given, front to back.
struct Queue<T> {
    items: Vec<Option<T>>,
    at: usize,
    pulls: usize,
}

impl<T: Copy> Queue<T> {
    fn new(items: Vec<Option<T>>) -> Self {
        Queue { items, at: 0, pulls: 0 }
    }

    fn empty() -> Self {
        Queue::new(Vec::new())
    }
}

impl<T: Copy> SampleSource<T> for Queue<T> {
    fn next_sample(&mut self) -> Option<T> {
        self.pulls += 1;
        let item = self.items.get(self.at).copied().flatten();
        self.at += 1;
        item
    }
}

#[test]
fn silence_values_of_every_integer_format() {
    assert_eq!(silence_i8(), 0);
    assert_eq!(silence_i16(), 0);
    assert_eq!(silence_i32(), 0);
    assert_eq!(silence_i64(), 0);
    assert_eq!(silence_u8(), 127);
    assert_eq!(silence_u16(), 32_767);
    assert_eq!(silence_u32(), 2_147_483_647);
    assert_eq!(silence_u64(), 9_223_372_036_854_775_807);
    assert_eq!(silence_u8(), u8::MAX / 2);
    assert_eq!(silence_u16(), u16::MAX / 2);
    assert_eq!(silence_u32(), u32::MAX / 2);
    assert_eq!(silence_u64(), u64::MAX / 2);
}

#[test]
fn output_sample_is_sample_or_silence() {
    assert_eq!(output_sample(Some(5i16), 0), 5);
    assert_eq!(output_sample(None, 0i16), 0);
    assert_eq!(output_sample(Some(0u8), 127), 0);
    assert_eq!(output_sample(None, 127u8), 127);
    assert_eq!(output_sample(Some(0.25f32), 0.0), 0.25);
    assert_eq!(output_sample(None, 0.0f64), 0.0);
}

#[test]
fn empty_mixer_renders_u8_silence_in_every_slot() {
    let mut data = [9u8; 64];
    let mut source = Queue::<u8>::empty();
    render_u8(&mut data, &mut source);
    assert_eq!(data, [127u8; 64]);
    assert_eq!(source.pulls, 64);
}

#[test]
fn empty_mixer_renders_silence_for_every_integer_format() {
    let mut a = [1i8; 5];
    render_i8(&mut a, &mut Queue::empty());
    assert_eq!(a, [0i8; 5]);
    let mut a = [1i16; 5];
    render_i16(&mut a, &mut Queue::empty());
    assert_eq!(a, [0i16; 5]);
    let mut a = [1i32; 5];
    render_i32(&mut a, &mut Queue::empty());
    assert_eq!(a, [0i32; 5]);
    let mut a = [1i64; 5];
    render_i64(&mut a, &mut Queue::empty());
    assert_eq!(a, [0i64; 5]);
    let mut a = [1u16; 5];
    render_u16(&mut a, &mut Queue::empty());
    assert_eq!(a, [32_767u16; 5]);
    let mut a = [1u32; 5];
    render_u32(&mut a, &mut Queue::empty());
    assert_eq!(a, [2_147_483_647u32; 5]);
    let mut a = [1u64; 5];
    render_u64(&mut a, &mut Queue::empty());
    assert_eq!(a, [9_223_372_036_854_775_807u64; 5]);
}

#[test]
fn empty_mixer_renders_float_silence() {
    let mut a = [0.5f32; 7];
    fill_buffer(&mut a, &mut Queue::empty(), 0.0f32);
    assert_eq!(a, [0.0f32; 7]);
    let mut b = [0.5f64; 7];
    fill_buffer(&mut b, &mut Queue::empty(), 0.0f64);
    assert_eq!(b, [0.0f64; 7]);
}

#[test]
fn samples_are_written_in_the_order_they_are_pulled() {
    let mut data = [0i16; 6];
    let mut source = Queue::new(vec![Some(10), Some(-20), None, Some(30)]);
    render_i16(&mut data, &mut source);
    assert_eq!(data, [10, -20, 0, 30, 0, 0]);
    assert_eq!(source.pulls, 6);
}

#[test]
fn underflow_in_the_middle_is_mid_scale_for_unsigned() {
    let mut data = [0u16; 4];
    let mut source = Queue::new(vec![Some(0), None, Some(65_535), None]);
    render_u16(&mut data, &mut source);
    assert_eq!(data, [0, 32_767, 65_535, 32_767]);
}

#[test]
fn a_source_is_pulled_once_per_slot_only() {
    let mut data = [0u8; 3];
    let mut source = Queue::new(vec![Some(1), Some(2), Some(3), Some(4), Some(5)]);
    render_u8(&mut data, &mut source);
    assert_eq!(data, [1, 2, 3]);
    assert_eq!(source.pulls, 3);
    let mut rest = [0u8; 3];
    render_u8(&mut rest, &mut source);
    assert_eq!(rest, [4, 5, 127]);
}

#[test]
fn an_empty_buffer_pulls_nothing() {
    let mut data: [i32; 0] = [];
    let mut source = Queue::new(vec![Some(1)]);
    render_i32(&mut data, &mut source);
    assert_eq!(source.pulls, 0);
}

#[test]
fn a_mixer_without_sources_renders_mid_scale_u16() {
    let mut data = [0u16, 1, 65_535];
    render_u16(&mut data, &mut Exhausted);
    assert_eq!(data, [32_767u16, 32_767, 32_767]);
}

#[test]
fn the_exhausted_source_renders_silence_in_every_format() {
    let mut a = [3i8; 4];
    render_i8(&mut a, &mut Exhausted);
    assert_eq!(a, [0i8; 4]);
    let mut a = [3i64; 4];
    render_i64(&mut a, &mut Exhausted);
    assert_eq!(a, [0i64; 4]);
    let mut a = [3u8; 4];
    render_u8(&mut a, &mut Exhausted);
    assert_eq!(a, [127u8; 4]);
    let mut a = [3u32; 4];
    render_u32(&mut a, &mut Exhausted);
    assert_eq!(a, [2_147_483_647u32; 4]);
    let mut a = [0.25f32; 4];
    fill_buffer(&mut a, &mut Exhausted, 0.0f32);
    assert_eq!(a, [0.0f32; 4]);
    let mut a: [u64; 0] = [];
    render_u64(&mut a, &mut Exhausted);
    assert_eq!(a.len(), 0);
}
