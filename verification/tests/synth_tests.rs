use mock_traffic::events::ConfigError;
use mock_traffic::synth::{
    entropy_prefix_len, fill_prefix_with_xor_prng, fill_with_xor_prng, synthesize,
    Compressibility,
};

#[test]
fn fill_with_xor_prng_test() {
    let mut data_full_entropy = vec![0; 1000];
    fill_with_xor_prng(&mut data_full_entropy);
    let compressed_size = lz4_flex::compress(&data_full_entropy).len();
    assert_eq!(compressed_size, 1005);
}

#[test]
fn fill_with_xor_prng_lowentropy_test() {
    let mut data_low_entropy = vec![0; 1000];
    fill_prefix_with_xor_prng(&mut data_low_entropy, 200);
    let compressed_size = lz4_flex::compress(&data_low_entropy).len();
    assert_eq!(compressed_size, 219);
}

#[test]
fn fill_first_words_are_the_fixed_stream() {
    let mut data = vec![0u8; 8];
    fill_with_xor_prng(&mut data);
    assert_eq!(data, vec![183, 32, 125, 71, 66, 145, 29, 142]);
}

#[test]
fn fill_leaves_partial_word_untouched() {
    let mut data = vec![7u8; 6];
    fill_with_xor_prng(&mut data);
    assert_eq!(&data[0..4], &[183, 32, 125, 71]);
    assert_eq!(&data[4..6], &[7, 7]);
}

#[test]
fn synthesize_full_compressibility_is_all_zero() {
    let c = Compressibility::new(10000).unwrap();
    let payload = synthesize(1000, &c);
    assert_eq!(payload.len(), 1000);
    assert!(payload.iter().all(|&b| b == 0));
    let compressed_size = lz4_flex::compress(&payload).len();
    assert!(compressed_size < 30);
}

#[test]
fn synthesize_zero_compressibility_is_incompressible() {
    let c = Compressibility::new(0).unwrap();
    let payload = synthesize(1000, &c);
    assert_eq!(payload.len(), 1000);
    let mut reference = vec![0u8; 1000];
    fill_with_xor_prng(&mut reference);
    assert_eq!(payload, reference);
    let compressed_size = lz4_flex::compress(&payload).len();
    assert_eq!(compressed_size, 1005);
}

#[test]
fn synthesize_is_deterministic() {
    let c = Compressibility::new(3500).unwrap();
    let a = synthesize(4096, &c);
    let b = synthesize(4096, &c);
    assert_eq!(a, b);
}

#[test]
fn synthesize_splits_prefix_and_tail() {
    let c = Compressibility::new(2000).unwrap();
    let payload = synthesize(1000, &c);
    assert_eq!(payload.len(), 1000);
    let full = Compressibility::new(0).unwrap();
    let prefix_reference = synthesize(800, &full);
    assert_eq!(&payload[0..800], &prefix_reference[..]);
    assert!(payload[800..].iter().all(|&b| b == 0));
}

#[test]
fn synthesize_empty_payload() {
    let c = Compressibility::new(5000).unwrap();
    let payload = synthesize(0, &c);
    assert!(payload.is_empty());
}

#[test]
fn entropy_prefix_len_rounds_down() {
    let c = Compressibility::new(2000).unwrap();
    assert_eq!(entropy_prefix_len(1000, &c), 800);
    let c = Compressibility::new(3333).unwrap();
    assert_eq!(entropy_prefix_len(3, &c), 2);
    let c = Compressibility::new(10000).unwrap();
    assert_eq!(entropy_prefix_len(1000, &c), 0);
    let c = Compressibility::new(0).unwrap();
    assert_eq!(entropy_prefix_len(1000, &c), 1000);
}

#[test]
fn compressibility_out_of_range_is_invalid_argument() {
    assert!(Compressibility::new(10000).is_ok());
    let err = Compressibility::new(10001).unwrap_err();
    assert_eq!(err, ConfigError::InvalidArgument);
}
