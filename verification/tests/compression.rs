use rest_core::compression::{is_image_type, CompressionPredicate};

#[test]
fn unconfigured_never_compresses() {
    let predicate = CompressionPredicate::from_env(None);
    for size in [None, Some(0), Some(1), Some(1_000_000), Some(u64::MAX)] {
        assert!(!predicate.should_compress(size));
        for accepts in [true, false] {
            assert!(!predicate.compresses_response(accepts, size, "application/json"));
            assert!(!predicate.compresses_response(accepts, size, ""));
        }
    }
}

#[test]
fn compresses_only_above_the_minimum() {
    let predicate = CompressionPredicate::from_env(Some(1000));
    assert!(predicate.compresses_response(true, Some(1001), "application/json"));
    assert!(predicate.compresses_response(true, Some(u64::MAX), "application/json"));
    assert!(!predicate.compresses_response(true, Some(1000), "application/json"));
    assert!(!predicate.compresses_response(true, Some(999), "application/json"));
    assert!(!predicate.compresses_response(true, Some(0), "application/json"));
}

#[test]
fn client_must_accept_compression() {
    let predicate = CompressionPredicate::from_env(Some(10));
    assert!(predicate.compresses_response(true, Some(11), "text/plain"));
    assert!(!predicate.compresses_response(false, Some(11), "text/plain"));
}

#[test]
fn images_are_never_compressed() {
    let predicate = CompressionPredicate::from_env(Some(10));
    assert!(!predicate.compresses_response(true, Some(5000), "image/png"));
    assert!(!predicate.compresses_response(true, Some(5000), "image/svg+xml"));
    assert!(!predicate.compresses_response(true, Some(5000), "image/"));
    assert!(predicate.compresses_response(true, Some(5000), "imag"));
    assert!(predicate.compresses_response(true, Some(5000), "text/image/png"));
}

#[test]
fn image_types_begin_with_image() {
    assert!(is_image_type("image/png"));
    assert!(is_image_type("image/"));
    assert!(is_image_type("image/\u{e9}"));
    assert!(!is_image_type(""));
    assert!(!is_image_type("image"));
    assert!(!is_image_type("Image/png"));
    assert!(!is_image_type("application/json"));
    assert!(!is_image_type("\u{e9}mage/png"));
}

#[test]
fn unknown_size_passes_a_configured_rule() {
    let predicate = CompressionPredicate::from_env(Some(1000));
    assert!(predicate.should_compress(None));
    assert!(predicate.compresses_response(true, None, "application/json"));
}

#[test]
fn minimum_is_kept_as_configured() {
    let large = CompressionPredicate::from_env(Some(100_000));
    assert!(!large.should_compress(Some(70_000)));
    assert!(!large.should_compress(Some(100_000)));
    assert!(large.should_compress(Some(100_001)));
    assert!(!large.compresses_response(true, Some(70_000), "application/json"));
    assert!(large.compresses_response(true, Some(100_001), "application/json"));

    let at = CompressionPredicate::from_env(Some(65535));
    let beyond = CompressionPredicate::from_env(Some(65536));
    assert_ne!(at, beyond);
    assert!(at.should_compress(Some(65536)));
    assert!(!beyond.should_compress(Some(65536)));
    assert!(beyond.should_compress(Some(65537)));

    let largest = CompressionPredicate::from_env(Some(usize::MAX));
    assert!(!largest.should_compress(Some(usize::MAX as u64)));
    assert!(!largest.should_compress(Some(65536)));
    assert!(largest.should_compress(None));

    assert_ne!(CompressionPredicate::from_env(Some(0)), CompressionPredicate::from_env(None));
    assert!(CompressionPredicate::from_env(Some(0)).should_compress(Some(1)));
    assert!(!CompressionPredicate::from_env(Some(0)).should_compress(Some(0)));
}
