//! The segmentation pipeline.
//!
//! One inference request runs a fixed sequence of stages: colour-order
//! conversion, resizing to the model's fixed resolution, normalisation to
//! floats, tensor inference, and thresholding of the raw output into a
//! binary mask.  Each stage is checked independently and maps to a distinct
//! error code; a failed stage aborts the run and nothing later executes.
//!
//! Tensor scalars cross this library's edge as IEEE-754 single-precision bit
//! patterns held in `u32` values, so the thresholding policy is stated and
//! proved exactly over those patterns.

use vstd::prelude::*;

use crate::errors::SegmentImageError;

verus! {

/// Fixed spatial width of the model's input and output.
pub const MODEL_WIDTH: usize = 256;

/// Fixed spatial height of the model's input and output.
pub const MODEL_HEIGHT: usize = 256;

/// Channels of the model's input tensor.
pub const MODEL_CHANNELS: usize = 3;

/// Pixels in one output mask.
pub const MASK_PIXELS: usize = MODEL_WIDTH * MODEL_HEIGHT;

/// A borrowed image crossing the boundary: interleaved pixel data with its
/// geometry.  The caller retains ownership; the library only reads it.
pub struct ImageBuffer {
    pub width: usize,
    pub height: usize,
    pub channels: usize,
    pub data: Vec<u8>,
}

impl ImageBuffer {
    /// The pixel buffer holds exactly one byte per channel per pixel.
    pub open spec fn wf(self) -> bool {
        self.data@.len() == self.width * self.height * self.channels
    }

    /// Wraps foreign pixel data, rejecting geometry that does not match the
    /// buffer's length.
    pub fn new(width: usize, height: usize, channels: usize, data: Vec<u8>) -> (r: Result<
        ImageBuffer,
        SegmentImageError,
    >)
        ensures
            r is Ok <==> data@.len() == width * height * channels,
            r is Err ==> r->Err_0 == SegmentImageError::InvalidInput,
            r is Ok ==> {
                &&& r->Ok_0.wf()
                &&& r->Ok_0.width == width
                &&& r->Ok_0.height == height
                &&& r->Ok_0.channels == channels
                &&& r->Ok_0.data == data
            },
    {
        let n = data.len();
        if width == 0 || height == 0 || channels == 0 {
            proof {
                assert(width * height * channels == 0) by (nonlinear_arith)
                    requires
                        width == 0 || height == 0 || channels == 0,
                ;
            }
            if n != 0 {
                return Err(SegmentImageError::InvalidInput);
            }
            return Ok(ImageBuffer { width, height, channels, data });
        }
        let pixels = match width.checked_mul(height) {
            Some(p) => p,
            None => {
                proof {
                    assert(width * height * channels >= width * height) by (nonlinear_arith)
                        requires
                            channels >= 1,
                            width >= 0,
                            height >= 0,
                    ;
                }
                return Err(SegmentImageError::InvalidInput);
            },
        };
        let expected = match pixels.checked_mul(channels) {
            Some(t) => t,
            None => {
                proof {
                    assert(width * height * channels == pixels * channels) by (nonlinear_arith)
                        requires
                            pixels == width * height,
                    ;
                }
                return Err(SegmentImageError::InvalidInput);
            },
        };
        proof {
            assert(width * height * channels == pixels * channels) by (nonlinear_arith)
                requires
                    pixels == width * height,
            ;
        }
        if n != expected {
            return Err(SegmentImageError::InvalidInput);
        }
        Ok(ImageBuffer { width, height, channels, data })
    }
}

/// One step of the fixed pipeline order.
#[derive(Debug, Copy, Clone, PartialEq, Eq, Structural)]
pub enum PipelineStage {
    /// Convert the image's colour order to the model's training order.
    ColorConvert,
    /// Resize to the model's fixed spatial resolution.
    Resize,
    /// Convert pixel values to normalized floats.
    Normalize,
    /// Run the tensor engine on the prepared input.
    Inference,
    /// Threshold the raw output into the binary mask.
    Postprocess,
}

/// The error code owed for a failure at a given stage.
pub open spec fn spec_stage_error(stage: PipelineStage) -> SegmentImageError {
    match stage {
        PipelineStage::ColorConvert => SegmentImageError::PreProcessingError,
        PipelineStage::Resize => SegmentImageError::PreProcessingError,
        PipelineStage::Normalize => SegmentImageError::PreProcessingError,
        PipelineStage::Inference => SegmentImageError::ModelExecutionError,
        PipelineStage::Postprocess => SegmentImageError::PostProcessingError,
    }
}

/// Maps a stage failure to the error code that crosses the boundary.  Every
/// stage maps to a failure code, never to "no error", and never to a code
/// reserved for input validation.
pub fn stage_error(stage: PipelineStage) -> (e: SegmentImageError)
    ensures
        e == spec_stage_error(stage),
        e != SegmentImageError::NoError,
        e != SegmentImageError::NoRunner,
        e != SegmentImageError::InvalidInput,
{
    match stage {
        PipelineStage::ColorConvert => SegmentImageError::PreProcessingError,
        PipelineStage::Resize => SegmentImageError::PreProcessingError,
        PipelineStage::Normalize => SegmentImageError::PreProcessingError,
        PipelineStage::Inference => SegmentImageError::ModelExecutionError,
        PipelineStage::Postprocess => SegmentImageError::PostProcessingError,
    }
}

/// The stage that follows a given stage in the fixed order, if any.
pub open spec fn spec_next_stage(stage: PipelineStage) -> Option<PipelineStage> {
    match stage {
        PipelineStage::ColorConvert => Some(PipelineStage::Resize),
        PipelineStage::Resize => Some(PipelineStage::Normalize),
        PipelineStage::Normalize => Some(PipelineStage::Inference),
        PipelineStage::Inference => Some(PipelineStage::Postprocess),
        PipelineStage::Postprocess => None,
    }
}

/// Where one inference request stands.
#[derive(Debug, Copy, Clone, PartialEq, Eq, Structural)]
pub enum PipelineStatus {
    /// The given stage is the next to run.
    Running(PipelineStage),
    /// Every stage succeeded.
    Complete,
    /// A stage failed; the run stops with this error code.
    Aborted(SegmentImageError),
}

/// The stage every request starts at.
pub fn initial_stage() -> (s: PipelineStage)
    ensures
        s == PipelineStage::ColorConvert,
{
    PipelineStage::ColorConvert
}

/// Advances the pipeline after one stage ran: success proceeds to the next
/// stage in the fixed order (or completes after the last), failure aborts
/// with exactly that stage's error code.
pub fn pipeline_advance(stage: PipelineStage, step_ok: bool) -> (r: PipelineStatus)
    ensures
        step_ok ==> r == (match spec_next_stage(stage) {
            Some(n) => PipelineStatus::Running(n),
            None => PipelineStatus::Complete,
        }),
        !step_ok ==> r == PipelineStatus::Aborted(spec_stage_error(stage)),
{
    if !step_ok {
        return PipelineStatus::Aborted(stage_error(stage));
    }
    match stage {
        PipelineStage::ColorConvert => PipelineStatus::Running(PipelineStage::Resize),
        PipelineStage::Resize => PipelineStatus::Running(PipelineStage::Normalize),
        PipelineStage::Normalize => PipelineStatus::Running(PipelineStage::Inference),
        PipelineStage::Inference => PipelineStatus::Running(PipelineStage::Postprocess),
        PipelineStage::Postprocess => PipelineStatus::Complete,
    }
}

/// The number of scalars a tensor of the given shape holds: the product of
/// its dimensions, and one for the empty shape.
pub open spec fn spec_shape_product(shape: Seq<usize>) -> int
    decreases shape.len(),
{
    if shape.len() == 0 {
        1
    } else {
        spec_shape_product(shape.drop_last()) * shape.last()
    }
}

/// The engine's precondition on one inference call: the input buffer must
/// hold exactly one scalar per cell of the shape.  The product is compared
/// without ever overflowing, whatever the dimensions.
pub fn check_tensor_shape(shape: &Vec<usize>, len: usize) -> (r: bool)
    ensures
        r == (spec_shape_product(shape@) == len),
{
    let n = shape.len();
    let mut acc: Option<usize> = Some(1);
    let mut i: usize = 0;
    while i < n
        invariant
            i <= n,
            n == shape@.len(),
            acc is Some ==> acc->0 == spec_shape_product(shape@.take(i as int)),
            acc is None ==> spec_shape_product(shape@.take(i as int)) > usize::MAX,
        decreases n - i,
    {
        let d = shape[i];
        proof {
            assert(shape@.take(i + 1).drop_last() =~= shape@.take(i as int));
            assert(shape@.take(i + 1).last() == shape@[i as int]);
        }
        acc = match acc {
            Some(v) => v.checked_mul(d),
            None => {
                if d == 0 {
                    proof {
                        assert(spec_shape_product(shape@.take(i as int)) * 0 == 0)
                            by (nonlinear_arith);
                    }
                    Some(0)
                } else {
                    proof {
                        assert(spec_shape_product(shape@.take(i as int)) * (d as int)
                            >= spec_shape_product(shape@.take(i as int))) by (nonlinear_arith)
                            requires
                                d >= 1,
                                spec_shape_product(shape@.take(i as int)) >= 0,
                        ;
                    }
                    None
                }
            },
        };
        i = i + 1;
    }
    proof {
        assert(shape@.take(n as int) =~= shape@);
    }
    match acc {
        Some(v) => v == len,
        None => false,
    }
}

/// Bit pattern of one half (0.5) in IEEE-754 single precision.
pub const HALF_BITS: u32 = 0x3F00_0000;

/// Bit pattern of positive infinity in IEEE-754 single precision.
pub const POS_INF_BITS: u32 = 0x7F80_0000;

/// Whether the 32-bit float with this bit pattern is strictly greater than
/// one half.
///
/// Non-negative IEEE-754 single-precision values up to positive infinity
/// order exactly as their bit patterns do, so a value exceeds one half
/// precisely when its pattern lies strictly above the pattern of one half
/// and at or below the pattern of positive infinity.  Patterns above
/// positive infinity in that range are NaN, and patterns with the sign bit
/// set are negative or NaN: both compare false against one half.
pub open spec fn scalar_exceeds_half(bits: u32) -> bool {
    HALF_BITS < bits && bits <= POS_INF_BITS
}

/// The mask byte owed for one output scalar: strictly above one half is
/// foreground (255), anything else — a tie at exactly one half included —
/// is background (0).
pub open spec fn mask_value(bits: u32) -> u8 {
    if scalar_exceeds_half(bits) {
        255u8
    } else {
        0u8
    }
}

/// The mask owed for a raw model output: one byte per pixel of the model's
/// fixed output resolution, in the same row-major order as the output.
pub open spec fn spec_mask(bits: Seq<u32>) -> Seq<u8> {
    Seq::new(MASK_PIXELS as nat, |i: int| mask_value(bits[i]))
}

/// Thresholds the raw model output into the binary mask.
///
/// The raw output arrives as the bit patterns of its 32-bit float scalars.
/// An output shorter than one mask cannot be written out and is a
/// post-processing failure; otherwise the first `MASK_PIXELS` scalars are
/// thresholded at one half, strictly.
pub fn apply_threshold(bits: &Vec<u32>) -> (r: Result<Vec<u8>, SegmentImageError>)
    ensures
        r is Ok <==> bits@.len() >= MASK_PIXELS,
        r is Err ==> r->Err_0 == SegmentImageError::PostProcessingError,
        r is Ok ==> r->Ok_0@ == spec_mask(bits@),
{
    if bits.len() < MASK_PIXELS {
        return Err(SegmentImageError::PostProcessingError);
    }
    let mut mask: Vec<u8> = Vec::new();
    let mut i: usize = 0;
    while i < MASK_PIXELS
        invariant
            i <= MASK_PIXELS,
            bits@.len() >= MASK_PIXELS,
            mask@.len() == i,
            forall|j: int| 0 <= j < i ==> mask@[j] == mask_value(bits@[j]),
        decreases MASK_PIXELS - i,
    {
        let b = bits[i];
        let v: u8 = if b > HALF_BITS && b <= POS_INF_BITS {
            255
        } else {
            0
        };
        mask.push(v);
        i = i + 1;
    }
    proof {
        assert(mask@ =~= spec_mask(bits@));
    }
    Ok(mask)
}

/// An output scalar of exactly one half is not strictly greater than one
/// half: the tie resolves to background.
pub proof fn lemma_exact_half_is_background()
    ensures
        mask_value(HALF_BITS) == 0,
{
}

/// Every mask is exactly one output resolution's worth of pixels, and every
/// mask byte is binary: background 0 or foreground 255, nothing between.
pub proof fn lemma_mask_shape_and_range(bits: Seq<u32>)
    ensures
        spec_mask(bits).len() == MASK_PIXELS,
        forall|i: int|
            0 <= i < spec_mask(bits).len() ==> (spec_mask(bits)[i] == 0 || spec_mask(bits)[i]
                == 255),
{
}

/// The mask is a function of the raw output bits alone: two runs whose raw
/// outputs carry identical bit patterns yield bit-identical masks.  The
/// verified stages add no nondeterminism of their own; determinism of the
/// engine for fixed weights and inputs is the engine's own property.
pub proof fn lemma_mask_deterministic(a: Seq<u32>, b: Seq<u32>)
    requires
        a == b,
    ensures
        spec_mask(a) == spec_mask(b),
{
}

/// The byte owed at each position of a colour-order-converted buffer: the
/// first and third channel of every three-byte pixel change places, the
/// middle channel stays.
pub open spec fn spec_swapped(data: Seq<u8>) -> Seq<u8> {
    Seq::new(
        data.len(),
        |i: int|
            if i % 3 == 0 {
                data[i + 2]
            } else if i % 3 == 2 {
                data[i - 2]
            } else {
                data[i]
            },
    )
}

/// Converts an interleaved three-channel buffer between the image library's
/// native colour order and the model's training order by swapping the first
/// and third channel of every pixel.  A buffer that is not a whole number of
/// three-byte pixels is a pre-processing failure.
pub fn swap_channels(data: &Vec<u8>) -> (r: Result<Vec<u8>, SegmentImageError>)
    ensures
        r is Ok <==> data@.len() % 3 == 0,
        r is Err ==> r->Err_0 == SegmentImageError::PreProcessingError,
        r is Ok ==> r->Ok_0@ == spec_swapped(data@),
{
    let n = data.len();
    if n % 3 != 0 {
        return Err(SegmentImageError::PreProcessingError);
    }
    let mut out: Vec<u8> = Vec::new();
    let mut i: usize = 0;
    while i < n
        invariant
            i <= n,
            i % 3 == 0,
            n % 3 == 0,
            n == data@.len(),
            out@.len() == i,
            forall|j: int| 0 <= j < i ==> out@[j] == spec_swapped(data@)[j],
        decreases n - i,
    {
        out.push(data[i + 2]);
        out.push(data[i + 1]);
        out.push(data[i]);
        proof {
            assert((i as int) % 3 == 0 && (i + 1) % 3 == 1 && (i + 2) % 3 == 2) by (nonlinear_arith)
                requires
                    (i as int) % 3 == 0,
            ;
        }
        i = i + 3;
    }
    proof {
        assert(out@ =~= spec_swapped(data@));
    }
    Ok(out)
}

/// The model's input shape multiplies out to exactly one scalar per channel
/// per pixel of the model's fixed resolution.
pub proof fn lemma_model_shape_product()
    ensures
        spec_shape_product(seq![1usize, MODEL_HEIGHT, MODEL_WIDTH, MODEL_CHANNELS]) == MODEL_WIDTH
            * MODEL_HEIGHT * MODEL_CHANNELS,
{
    let s0 = Seq::<usize>::empty();
    let s1 = seq![1usize];
    let s2 = seq![1usize, MODEL_HEIGHT];
    let s3 = seq![1usize, MODEL_HEIGHT, MODEL_WIDTH];
    let s4 = seq![1usize, MODEL_HEIGHT, MODEL_WIDTH, MODEL_CHANNELS];
    assert(s1.drop_last() =~= s0);
    assert(s2.drop_last() =~= s1);
    assert(s3.drop_last() =~= s2);
    assert(s4.drop_last() =~= s3);
    assert(spec_shape_product(s0) == 1);
    assert(spec_shape_product(s1) == 1);
    assert(spec_shape_product(s2) == MODEL_HEIGHT);
    assert(spec_shape_product(s3) == MODEL_HEIGHT * MODEL_WIDTH);
    assert(spec_shape_product(s4) == MODEL_HEIGHT * MODEL_WIDTH * MODEL_CHANNELS);
}

/// Shape of the model's input tensor: one image, height, width, channels.
pub fn model_input_shape() -> (shape: Vec<usize>)
    ensures
        shape@ =~= seq![1usize, MODEL_HEIGHT, MODEL_WIDTH, MODEL_CHANNELS],
        spec_shape_product(shape@) == MODEL_WIDTH * MODEL_HEIGHT * MODEL_CHANNELS,
{
    let mut shape: Vec<usize> = Vec::new();
    shape.push(1);
    shape.push(MODEL_HEIGHT);
    shape.push(MODEL_WIDTH);
    shape.push(MODEL_CHANNELS);
    proof {
        lemma_model_shape_product();
        assert(shape@ =~= seq![1usize, MODEL_HEIGHT, MODEL_WIDTH, MODEL_CHANNELS]);
    }
    shape
}

} // verus!
