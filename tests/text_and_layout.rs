use inference_engine::layout::{
    batched_shape, channel_first_order, channel_mean_milli, channel_std_milli, model_input_shape,
    sample_dims, CHANNELS, IMAGE_HEIGHT, IMAGE_WIDTH, INPUT_LEN,
};
use inference_engine::text::{decimal_text, percent_hundredths_text};
use inference_engine::worker::{error_status_of, record_key_of};

#[test]
fn decimal_text_of_integers() {
    assert_eq!(decimal_text(0), "0");
    assert_eq!(decimal_text(7), "7");
    assert_eq!(decimal_text(281), "281");
    assert_eq!(decimal_text(1000), "1000");
    assert_eq!(decimal_text(-42), "-42");
    assert_eq!(decimal_text(i64::MAX), "9223372036854775807");
    assert_eq!(decimal_text(i64::MIN), "-9223372036854775808");
}

#[test]
fn percent_text_has_two_decimals() {
    assert_eq!(percent_hundredths_text(8537), "85.37%");
    assert_eq!(percent_hundredths_text(0), "0.00%");
    assert_eq!(percent_hundredths_text(5), "0.05%");
    assert_eq!(percent_hundredths_text(1230), "12.30%");
    assert_eq!(percent_hundredths_text(10000), "100.00%");
}

#[test]
fn record_key_and_error_status() {
    assert_eq!(record_key_of(&"abc123".to_string()), "request:abc123");
    assert_eq!(record_key_of(&String::new()), "request:");
    assert_eq!(error_status_of(&"invalid input size".to_string()), "error: invalid input size");
}

#[test]
fn input_length_is_height_width_channels() {
    assert_eq!(INPUT_LEN, IMAGE_HEIGHT * IMAGE_WIDTH * CHANNELS);
    assert_eq!(INPUT_LEN, 150528);
}

#[test]
fn model_input_is_batch_channel_height_width() {
    assert_eq!(sample_dims(), vec![224, 224, 3]);
    assert_eq!(channel_first_order(), vec![2, 0, 1]);
    assert_eq!(model_input_shape(), vec![1, 3, 224, 224]);
}

#[test]
fn batched_shape_follows_order() {
    assert_eq!(batched_shape(&vec![5, 6, 7], &vec![1, 2, 0]), vec![1, 6, 7, 5]);
    assert_eq!(batched_shape(&vec![], &vec![]), vec![1]);
}

#[test]
fn normalization_constants() {
    let means: Vec<u32> = (0..3).map(channel_mean_milli).collect();
    let stds: Vec<u32> = (0..3).map(channel_std_milli).collect();
    assert_eq!(means, vec![485, 456, 406]);
    assert_eq!(stds, vec![229, 224, 225]);
    let mean_f: Vec<f32> = means.iter().map(|m| *m as f32 / 1000.0).collect();
    let std_f: Vec<f32> = stds.iter().map(|d| *d as f32 / 1000.0).collect();
    assert_eq!(mean_f, vec![0.485f32, 0.456, 0.406]);
    assert_eq!(std_f, vec![0.229f32, 0.224, 0.225]);
}

#[test]
fn zero_sample_normalizes_to_negative_mean_over_std() {
    let expected = [(0.0f32 - 0.485) / 0.229, (0.0f32 - 0.456) / 0.224, (0.0f32 - 0.406) / 0.225];
    for c in 0..3 {
        let mean = channel_mean_milli(c) as f32 / 1000.0;
        let std = channel_std_milli(c) as f32 / 1000.0;
        assert_eq!((0.0f32 - mean) / std, expected[c]);
    }
}
