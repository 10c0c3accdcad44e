use hisab_mimamsa::quantum_field::coupling::is_asymptotically_free;

#[test]
fn test_asymptotic_freedom() {
    assert!(is_asymptotically_free(6)); // SM
    assert!(is_asymptotically_free(16)); // barely
    assert!(!is_asymptotically_free(17)); // lost
}

#[test]
fn asymptotic_freedom_matches_sign_of_b0() {
    for n_f in 0u8..=255 {
        let b0 = 33i32 - 2 * i32::from(n_f);
        assert_eq!(is_asymptotically_free(n_f), b0 > 0, "n_f = {n_f}");
    }
}

#[test]
fn asymptotic_freedom_edges() {
    assert!(is_asymptotically_free(0));
    assert!(!is_asymptotically_free(255));
}
