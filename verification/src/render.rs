//! The realtime render step: one sample per output slot, silence on underflow.

use vstd::prelude::*;
use crate::format::SampleFormat;

verus! {

/// A lazy sequence of samples already converted to the device's element type.
///
/// `next_sample` returns `None` whenever the mixer has nothing to play; a later call may
/// return a sample again.
pub trait SampleSource<T>: Sized {
    /// Whether one pull can take the source from `before` to `after` and hand out
    /// `sample`.  A source says here what it may yield; one that says nothing may yield
    /// anything.
    open spec fn yields(before: Self, after: Self, sample: Option<T>) -> bool {
        true
    }

    /// Pulls the next sample, if there is one.
    fn next_sample(&mut self) -> (r: Option<T>)
        ensures
            Self::yields(*old(self), *final(self), r),
    ;
}

/// A source that never has a sample: what a mixer without sources is to the callback.
#[derive(Clone, Copy, Debug, Default)]
pub struct Exhausted;

impl<T> SampleSource<T> for Exhausted {
    open spec fn yields(before: Self, after: Self, sample: Option<T>) -> bool {
        sample is None
    }

    fn next_sample(&mut self) -> (r: Option<T>) {
        None
    }
}

/// `states` are the states of a source before, between and after the pulls that gave
/// `pulled`, in order: one pull for each entry, each starting where the one before ended.
pub open spec fn pulls_through<T, S: SampleSource<T>>(
    states: Seq<S>,
    before: S,
    after: S,
    pulled: Seq<Option<T>>,
) -> bool {
    &&& states.len() == pulled.len() + 1
    &&& states[0] == before
    &&& states[pulled.len() as int] == after
    &&& forall|i: int|
        0 <= i < pulled.len() ==> S::yields(states[i], states[i + 1], #[trigger] pulled[i])
}

/// `pulled` is what the source gave, pull by pull, on its way from `before` to `after`.
pub open spec fn pulled_from<T, S: SampleSource<T>>(before: S, after: S, pulled: Seq<Option<T>>) -> bool {
    exists|states: Seq<S>| pulls_through(states, before, after, pulled)
}

/// Whether the source is one that can never yield a sample.
pub open spec fn never_yields<T, S: SampleSource<T>>() -> bool {
    forall|before: S, after: S, sample: Option<T>| #[trigger]
        S::yields(before, after, sample) ==> sample is None
}

/// The value written to a slot for which `pulled` was obtained from the source.
pub open spec fn slot_value<T>(pulled: Option<T>, silence: T) -> T {
    match pulled {
        Some(sample) => sample,
        None => silence,
    }
}

/// The buffer that results from pulling `pulled` in order, one entry per slot.
pub open spec fn rendered<T>(pulled: Seq<Option<T>>, silence: T) -> Seq<T> {
    Seq::new(pulled.len(), |i: int| slot_value(pulled[i], silence))
}

/// A buffer of `len` slots that all hold `silence`.
pub open spec fn silent<T>(len: nat, silence: T) -> Seq<T> {
    Seq::new(len, |i: int| silence)
}

/// When the source yields no sample for any slot, the rendered buffer is the
/// constant-silence buffer of the same length.
pub proof fn lemma_silence_on_underflow<T>(pulled: Seq<Option<T>>, silence: T)
    requires
        forall|i: int| 0 <= i < pulled.len() ==> pulled[i] is None,
    ensures
        rendered(pulled, silence) == silent(pulled.len(), silence),
{
    assert(rendered(pulled, silence) =~= silent(pulled.len(), silence));
}

/// A slot for which the source had a sample holds that sample; every other slot holds
/// silence.
pub proof fn lemma_rendered_slot<T>(pulled: Seq<Option<T>>, silence: T, i: int)
    requires
        0 <= i < pulled.len(),
    ensures
        rendered(pulled, silence).len() == pulled.len(),
        pulled[i] is Some ==> rendered(pulled, silence)[i] == pulled[i]->0,
        pulled[i] is None ==> rendered(pulled, silence)[i] == silence,
{
}

/// Silence on underflow: whatever a source that can never yield a sample was pulled
/// for, the rendered buffer holds silence in every slot.
pub proof fn lemma_exhausted_source_renders_silence<T, S: SampleSource<T>>(
    before: S,
    after: S,
    pulled: Seq<Option<T>>,
    silence: T,
)
    requires
        pulled_from(before, after, pulled),
        never_yields::<T, S>(),
    ensures
        rendered(pulled, silence) == silent(pulled.len(), silence),
{
    let states = choose|states: Seq<S>| pulls_through(states, before, after, pulled);
    assert forall|i: int| 0 <= i < pulled.len() implies pulled[i] is None by {
        assert(S::yields(states[i], states[i + 1], pulled[i]));
    }
    lemma_silence_on_underflow(pulled, silence);
}

/// The source without samples is one that can never yield a sample.
pub proof fn lemma_exhausted_never_yields<T>()
    ensures
        never_yields::<T, Exhausted>(),
{
}

/// The value for one output slot: the pulled sample, or silence when there was none.
pub fn output_sample<T>(pulled: Option<T>, silence: T) -> (r: T)
    ensures
        r == slot_value(pulled, silence),
{
    match pulled {
        Some(sample) => sample,
        None => silence,
    }
}

/// Fills every slot of `data`, front to back, with one sample pulled from `source`, or
/// with `silence` where the source had none.  The source is pulled exactly once for each
/// slot, also after it had no sample for an earlier one.
///
/// Returns the sequence of what the source yielded, one entry per slot.
pub fn fill_buffer<T: Copy, S: SampleSource<T>>(data: &mut [T], source: &mut S, silence: T) -> (pulled:
    Ghost<Seq<Option<T>>>)
    ensures
        pulled@.len() == old(data)@.len(),
        pulled_from(*old(source), *final(source), pulled@),
        final(data)@ == rendered(pulled@, silence),
{
    let len: usize = data.len();
    let ghost mut seen: Seq<Option<T>> = Seq::empty();
    let ghost mut states: Seq<S> = seq![*source];
    let mut i: usize = 0;
    while i < len
        invariant
            i <= len,
            len == data@.len(),
            data@.len() == old(data)@.len(),
            seen.len() == i,
            states.len() == i + 1,
            states[0] == *old(source),
            states[i as int] == *source,
            forall|j: int| 0 <= j < i ==> S::yields(states[j], states[j + 1], #[trigger] seen[j]),
            forall|j: int| 0 <= j < i ==> data@[j] == slot_value(seen[j], silence),
        decreases len - i,
    {
        let next: Option<T> = source.next_sample();
        data[i] = output_sample(next, silence);
        proof {
            seen = seen.push(next);
            states = states.push(*source);
        }
        i = i + 1;
    }
    proof {
        assert(pulls_through(states, *old(source), *source, seen));
        assert(data@ =~= rendered(seen, silence));
    }
    Ghost(seen)
}

/// The silence value of the signed 8-bit format.
pub fn silence_i8() -> (r: i8)
    ensures
        r == SampleFormat::I8.silence_level(),
{
    0
}

/// The silence value of the signed 16-bit format.
pub fn silence_i16() -> (r: i16)
    ensures
        r == SampleFormat::I16.silence_level(),
{
    0
}

/// The silence value of the signed 32-bit format.
pub fn silence_i32() -> (r: i32)
    ensures
        r == SampleFormat::I32.silence_level(),
{
    0
}

/// The silence value of the signed 64-bit format.
pub fn silence_i64() -> (r: i64)
    ensures
        r == SampleFormat::I64.silence_level(),
{
    0
}

/// The silence value of the unsigned 8-bit format.
pub fn silence_u8() -> (r: u8)
    ensures
        r == SampleFormat::U8.silence_level(),
{
    u8::MAX / 2
}

/// The silence value of the unsigned 16-bit format.
pub fn silence_u16() -> (r: u16)
    ensures
        r == SampleFormat::U16.silence_level(),
{
    u16::MAX / 2
}

/// The silence value of the unsigned 32-bit format.
pub fn silence_u32() -> (r: u32)
    ensures
        r == SampleFormat::U32.silence_level(),
{
    u32::MAX / 2
}

/// The silence value of the unsigned 64-bit format.
pub fn silence_u64() -> (r: u64)
    ensures
        r == SampleFormat::U64.silence_level(),
{
    u64::MAX / 2
}

/// The render callback of the signed 8-bit format.
pub fn render_i8<S: SampleSource<i8>>(data: &mut [i8], source: &mut S) -> (pulled: Ghost<Seq<Option<i8>>>)
    ensures
        pulled@.len() == old(data)@.len(),
        pulled_from(*old(source), *final(source), pulled@),
        final(data)@ == rendered(pulled@, SampleFormat::I8.silence_level() as i8),
{
    fill_buffer(data, source, silence_i8())
}

/// The render callback of the signed 16-bit format.
pub fn render_i16<S: SampleSource<i16>>(data: &mut [i16], source: &mut S) -> (pulled: Ghost<Seq<Option<i16>>>)
    ensures
        pulled@.len() == old(data)@.len(),
        pulled_from(*old(source), *final(source), pulled@),
        final(data)@ == rendered(pulled@, SampleFormat::I16.silence_level() as i16),
{
    fill_buffer(data, source, silence_i16())
}

/// The render callback of the signed 32-bit format.
pub fn render_i32<S: SampleSource<i32>>(data: &mut [i32], source: &mut S) -> (pulled: Ghost<Seq<Option<i32>>>)
    ensures
        pulled@.len() == old(data)@.len(),
        pulled_from(*old(source), *final(source), pulled@),
        final(data)@ == rendered(pulled@, SampleFormat::I32.silence_level() as i32),
{
    fill_buffer(data, source, silence_i32())
}

/// The render callback of the signed 64-bit format.
pub fn render_i64<S: SampleSource<i64>>(data: &mut [i64], source: &mut S) -> (pulled: Ghost<Seq<Option<i64>>>)
    ensures
        pulled@.len() == old(data)@.len(),
        pulled_from(*old(source), *final(source), pulled@),
        final(data)@ == rendered(pulled@, SampleFormat::I64.silence_level() as i64),
{
    fill_buffer(data, source, silence_i64())
}

/// The render callback of the unsigned 8-bit format.
pub fn render_u8<S: SampleSource<u8>>(data: &mut [u8], source: &mut S) -> (pulled: Ghost<Seq<Option<u8>>>)
    ensures
        pulled@.len() == old(data)@.len(),
        pulled_from(*old(source), *final(source), pulled@),
        final(data)@ == rendered(pulled@, SampleFormat::U8.silence_level() as u8),
{
    fill_buffer(data, source, silence_u8())
}

/// The render callback of the unsigned 16-bit format.
pub fn render_u16<S: SampleSource<u16>>(data: &mut [u16], source: &mut S) -> (pulled: Ghost<Seq<Option<u16>>>)
    ensures
        pulled@.len() == old(data)@.len(),
        pulled_from(*old(source), *final(source), pulled@),
        final(data)@ == rendered(pulled@, SampleFormat::U16.silence_level() as u16),
{
    fill_buffer(data, source, silence_u16())
}

/// The render callback of the unsigned 32-bit format.
pub fn render_u32<S: SampleSource<u32>>(data: &mut [u32], source: &mut S) -> (pulled: Ghost<Seq<Option<u32>>>)
    ensures
        pulled@.len() == old(data)@.len(),
        pulled_from(*old(source), *final(source), pulled@),
        final(data)@ == rendered(pulled@, SampleFormat::U32.silence_level() as u32),
{
    fill_buffer(data, source, silence_u32())
}

/// The render callback of the unsigned 64-bit format.
pub fn render_u64<S: SampleSource<u64>>(data: &mut [u64], source: &mut S) -> (pulled: Ghost<Seq<Option<u64>>>)
    ensures
        pulled@.len() == old(data)@.len(),
        pulled_from(*old(source), *final(source), pulled@),
        final(data)@ == rendered(pulled@, SampleFormat::U64.silence_level() as u64),
{
    fill_buffer(data, source, silence_u64())
}

} // verus!
