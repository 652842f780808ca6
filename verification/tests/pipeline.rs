use segmask::errors::SegmentImageError;
use segmask::pipeline::ImageBuffer;
use segmask::pipeline::MASK_PIXELS;
use segmask::pipeline::PipelineStage;
use segmask::pipeline::PipelineStatus;
use segmask::pipeline::apply_threshold;
use segmask::pipeline::check_tensor_shape;
use segmask::pipeline::initial_stage;
use segmask::pipeline::model_input_shape;
use segmask::pipeline::pipeline_advance;
use segmask::pipeline::stage_error;
use segmask::pipeline::swap_channels;

#[test]
fn image_buffer_accepts_matching_geometry() {
    let image = ImageBuffer::new(512, 512, 3, vec![7u8; 512 * 512 * 3]).unwrap();
    assert_eq!(image.width, 512);
    assert_eq!(image.height, 512);
    assert_eq!(image.channels, 3);
    assert_eq!(image.data.len(), 512 * 512 * 3);
}

#[test]
fn image_buffer_rejects_mismatched_geometry() {
    let r = ImageBuffer::new(4, 4, 3, vec![0u8; 47]);
    assert!(matches!(r, Err(SegmentImageError::InvalidInput)));
}

#[test]
fn image_buffer_rejects_overflowing_geometry() {
    let r = ImageBuffer::new(usize::MAX, usize::MAX, 3, vec![0u8; 3]);
    assert!(matches!(r, Err(SegmentImageError::InvalidInput)));
}

#[test]
fn each_stage_maps_to_its_own_code() {
    assert_eq!(stage_error(PipelineStage::ColorConvert), SegmentImageError::PreProcessingError);
    assert_eq!(stage_error(PipelineStage::Resize), SegmentImageError::PreProcessingError);
    assert_eq!(stage_error(PipelineStage::Normalize), SegmentImageError::PreProcessingError);
    assert_eq!(stage_error(PipelineStage::Inference), SegmentImageError::ModelExecutionError);
    assert_eq!(stage_error(PipelineStage::Postprocess), SegmentImageError::PostProcessingError);
}

#[test]
fn the_pipeline_runs_its_stages_in_fixed_order() {
    let mut stage = initial_stage();
    assert_eq!(stage, PipelineStage::ColorConvert);
    let order = [
        PipelineStage::Resize,
        PipelineStage::Normalize,
        PipelineStage::Inference,
        PipelineStage::Postprocess,
    ];
    for next in order {
        match pipeline_advance(stage, true) {
            PipelineStatus::Running(n) => {
                assert_eq!(n, next);
                stage = n;
            },
            _ => panic!("pipeline stopped early"),
        }
    }
    assert_eq!(pipeline_advance(stage, true), PipelineStatus::Complete);
}

#[test]
fn a_failed_stage_aborts_with_its_own_code() {
    assert_eq!(
        pipeline_advance(PipelineStage::Resize, false),
        PipelineStatus::Aborted(SegmentImageError::PreProcessingError)
    );
    assert_eq!(
        pipeline_advance(PipelineStage::Inference, false),
        PipelineStatus::Aborted(SegmentImageError::ModelExecutionError)
    );
    assert_eq!(
        pipeline_advance(PipelineStage::Postprocess, false),
        PipelineStatus::Aborted(SegmentImageError::PostProcessingError)
    );
}

#[test]
fn the_model_input_shape_matches_its_buffer() {
    let shape = model_input_shape();
    assert_eq!(shape, vec![1, 256, 256, 3]);
    assert!(check_tensor_shape(&shape, 256 * 256 * 3));
    assert!(!check_tensor_shape(&shape, 256 * 256 * 3 - 1));
}

#[test]
fn tensor_shape_checking_handles_edge_shapes() {
    assert!(check_tensor_shape(&vec![], 1));
    assert!(!check_tensor_shape(&vec![], 0));
    assert!(check_tensor_shape(&vec![0, 1000], 0));
    assert!(check_tensor_shape(&vec![usize::MAX, usize::MAX, 0], 0));
    assert!(!check_tensor_shape(&vec![usize::MAX, usize::MAX], 0));
    assert!(!check_tensor_shape(&vec![usize::MAX, 2], usize::MAX));
}

#[test]
fn channel_swap_reverses_each_pixel() {
    let data = vec![1u8, 2, 3, 10, 20, 30];
    let swapped = swap_channels(&data).unwrap();
    assert_eq!(swapped, vec![3u8, 2, 1, 30, 20, 10]);
}

#[test]
fn channel_swap_twice_restores_the_buffer() {
    let data: Vec<u8> = (0u8..=251).collect();
    let twice = swap_channels(&swap_channels(&data).unwrap()).unwrap();
    assert_eq!(twice, data);
}

#[test]
fn channel_swap_rejects_ragged_buffers() {
    let r = swap_channels(&vec![1u8, 2, 3, 4]);
    assert!(matches!(r, Err(SegmentImageError::PreProcessingError)));
}

#[test]
fn thresholding_rejects_a_short_output() {
    let bits = vec![0u32; MASK_PIXELS - 1];
    let r = apply_threshold(&bits);
    assert!(matches!(r, Err(SegmentImageError::PostProcessingError)));
}

#[test]
fn thresholding_is_strict_at_one_half() {
    let mut bits = vec![0.0f32.to_bits(); MASK_PIXELS];
    bits[0] = 0.5f32.to_bits();
    bits[1] = 0.5000001f32.to_bits();
    bits[2] = 0.4999999f32.to_bits();
    bits[3] = 1.0f32.to_bits();
    bits[4] = f32::NAN.to_bits();
    bits[5] = (-1.0f32).to_bits();
    bits[6] = f32::INFINITY.to_bits();
    bits[7] = f32::NEG_INFINITY.to_bits();
    bits[8] = (-0.0f32).to_bits();
    let mask = apply_threshold(&bits).unwrap();
    assert_eq!(mask[0], 0);
    assert_eq!(mask[1], 255);
    assert_eq!(mask[2], 0);
    assert_eq!(mask[3], 255);
    assert_eq!(mask[4], 0);
    assert_eq!(mask[5], 0);
    assert_eq!(mask[6], 255);
    assert_eq!(mask[7], 0);
    assert_eq!(mask[8], 0);
}

#[test]
fn a_constant_one_half_output_yields_an_all_background_mask() {
    let bits = vec![0.5f32.to_bits(); MASK_PIXELS];
    let mask = apply_threshold(&bits).unwrap();
    assert_eq!(mask.len(), MASK_PIXELS);
    assert!(mask.iter().all(|&v| v == 0));
}

#[test]
fn the_mask_is_one_output_resolution_and_binary() {
    let bits: Vec<u32> = (0..MASK_PIXELS).map(|i| ((i % 256) as f32 / 255.0).to_bits()).collect();
    let mask = apply_threshold(&bits).unwrap();
    assert_eq!(mask.len(), 256 * 256);
    assert!(mask.iter().all(|&v| v == 0 || v == 255));
}

#[test]
fn thresholding_the_same_output_twice_is_bit_identical() {
    let bits: Vec<u32> = (0..MASK_PIXELS).map(|i| ((i as f32) / (MASK_PIXELS as f32)).to_bits()).collect();
    let first = apply_threshold(&bits).unwrap();
    let second = apply_threshold(&bits).unwrap();
    assert_eq!(first, second);
}

#[test]
fn extra_output_scalars_beyond_one_mask_are_ignored() {
    let mut bits = vec![0.9f32.to_bits(); MASK_PIXELS + 100];
    for extra in bits.iter_mut().skip(MASK_PIXELS) {
        *extra = 0.1f32.to_bits();
    }
    let mask = apply_threshold(&bits).unwrap();
    assert_eq!(mask.len(), MASK_PIXELS);
    assert!(mask.iter().all(|&v| v == 255));
}
