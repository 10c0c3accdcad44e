use hisab_mimamsa::quantum_field::propagator::is_valid_fft_length;

#[test]
fn fft_length_powers_of_two_accepted() {
    for k in 0..20 {
        assert!(is_valid_fft_length(1usize << k), "2^{k}");
    }
    assert!(is_valid_fft_length(256));
}

#[test]
fn fft_length_others_rejected() {
    assert!(!is_valid_fft_length(0));
    assert!(!is_valid_fft_length(100));
    assert!(!is_valid_fft_length(3));
    assert!(!is_valid_fft_length(255));
    assert!(!is_valid_fft_length(usize::MAX));
}
