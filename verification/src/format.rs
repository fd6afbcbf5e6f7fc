//! Sample formats and their silence levels.

use vstd::prelude::*;

verus! {

/// The binary element type of one audio sample.
///
/// Ten PCM formats have a render callback.  `Other` stands for any format a device may
/// report beyond these; a stream cannot be built for it.
#[derive(Clone, Copy, Debug, PartialEq, Eq, Hash, Structural)]
pub enum SampleFormat {
    /// Signed 8-bit integer.
    I8,
    /// Signed 16-bit integer.
    I16,
    /// Signed 32-bit integer.
    I32,
    /// Signed 64-bit integer.
    I64,
    /// Unsigned 8-bit integer.
    U8,
    /// Unsigned 16-bit integer.
    U16,
    /// Unsigned 32-bit integer.
    U32,
    /// Unsigned 64-bit integer.
    U64,
    /// 32-bit floating point.
    F32,
    /// 64-bit floating point.
    F64,
    /// A format without a render callback.
    Other,
}

impl SampleFormat {
    /// Whether a render callback exists for this format.
    pub open spec fn renderable(self) -> bool {
        self != SampleFormat::Other
    }

    /// Whether the native element type is an unsigned integer.
    pub open spec fn unsigned(self) -> bool {
        self == SampleFormat::U8 || self == SampleFormat::U16 || self == SampleFormat::U32
            || self == SampleFormat::U64
    }

    /// The largest value of the native element type of an unsigned format.
    pub open spec fn full_scale(self) -> int {
        match self {
            SampleFormat::U8 => u8::MAX as int,
            SampleFormat::U16 => u16::MAX as int,
            SampleFormat::U32 => u32::MAX as int,
            SampleFormat::U64 => u64::MAX as int,
            _ => 0,
        }
    }

    /// The number that stands for zero amplitude: mid-scale (`MAX / 2`) for an unsigned
    /// format, zero for every other.
    pub open spec fn silence_level(self) -> int {
        if self.unsigned() {
            self.full_scale() / 2
        } else {
            0
        }
    }

    /// Tells whether a stream can be rendered in this format.
    pub fn is_renderable(&self) -> (r: bool)
        ensures
            r == self.renderable(),
    {
        match self {
            SampleFormat::Other => false,
            _ => true,
        }
    }
}

/// A sample format that has a render callback: the element type of the device's buffer.
#[derive(Clone, Copy, Debug, PartialEq, Eq, Hash, Structural)]
pub enum NativeFormat {
    I8,
    I16,
    I32,
    I64,
    U8,
    U16,
    U32,
    U64,
    F32,
    F64,
}

impl NativeFormat {
    /// The sample format that this element type renders.
    pub open spec fn format(self) -> SampleFormat {
        match self {
            NativeFormat::I8 => SampleFormat::I8,
            NativeFormat::I16 => SampleFormat::I16,
            NativeFormat::I32 => SampleFormat::I32,
            NativeFormat::I64 => SampleFormat::I64,
            NativeFormat::U8 => SampleFormat::U8,
            NativeFormat::U16 => SampleFormat::U16,
            NativeFormat::U32 => SampleFormat::U32,
            NativeFormat::U64 => SampleFormat::U64,
            NativeFormat::F32 => SampleFormat::F32,
            NativeFormat::F64 => SampleFormat::F64,
        }
    }

    /// Returns the sample format that this element type renders.
    pub fn sample_format(&self) -> (r: SampleFormat)
        ensures
            r == self.format(),
            r.renderable(),
    {
        match self {
            NativeFormat::I8 => SampleFormat::I8,
            NativeFormat::I16 => SampleFormat::I16,
            NativeFormat::I32 => SampleFormat::I32,
            NativeFormat::I64 => SampleFormat::I64,
            NativeFormat::U8 => SampleFormat::U8,
            NativeFormat::U16 => SampleFormat::U16,
            NativeFormat::U32 => SampleFormat::U32,
            NativeFormat::U64 => SampleFormat::U64,
            NativeFormat::F32 => SampleFormat::F32,
            NativeFormat::F64 => SampleFormat::F64,
        }
    }
}

impl SampleFormat {
    /// The element type of the render callback for this format, if there is one.
    pub open spec fn native_type(self) -> Option<NativeFormat> {
        match self {
            SampleFormat::I8 => Some(NativeFormat::I8),
            SampleFormat::I16 => Some(NativeFormat::I16),
            SampleFormat::I32 => Some(NativeFormat::I32),
            SampleFormat::I64 => Some(NativeFormat::I64),
            SampleFormat::U8 => Some(NativeFormat::U8),
            SampleFormat::U16 => Some(NativeFormat::U16),
            SampleFormat::U32 => Some(NativeFormat::U32),
            SampleFormat::U64 => Some(NativeFormat::U64),
            SampleFormat::F32 => Some(NativeFormat::F32),
            SampleFormat::F64 => Some(NativeFormat::F64),
            SampleFormat::Other => None,
        }
    }

    /// Selects the element type of the render callback: `None` exactly for a format
    /// without one.
    pub fn native(&self) -> (r: Option<NativeFormat>)
        ensures
            r == self.native_type(),
            r is Some <==> self.renderable(),
            r matches Some(native) ==> native.format() == *self,
    {
        match self {
            SampleFormat::I8 => Some(NativeFormat::I8),
            SampleFormat::I16 => Some(NativeFormat::I16),
            SampleFormat::I32 => Some(NativeFormat::I32),
            SampleFormat::I64 => Some(NativeFormat::I64),
            SampleFormat::U8 => Some(NativeFormat::U8),
            SampleFormat::U16 => Some(NativeFormat::U16),
            SampleFormat::U32 => Some(NativeFormat::U32),
            SampleFormat::U64 => Some(NativeFormat::U64),
            SampleFormat::F32 => Some(NativeFormat::F32),
            SampleFormat::F64 => Some(NativeFormat::F64),
            SampleFormat::Other => None,
        }
    }
}

/// Every element type belongs to exactly one renderable format, and selecting the
/// element type of that format gives it back.
pub proof fn lemma_native_round_trip(native: NativeFormat, format: SampleFormat)
    ensures
        native.format().native_type() == Some(native),
        native.format().renderable(),
        format.native_type() matches Some(n) ==> n.format() == format,
        format.native_type() is None <==> format == SampleFormat::Other,
{
}

} // verus!
