use rust_backend::lock_key::generate_lock_key;

#[test]
fn lock_key_is_deterministic() {
    assert_eq!(generate_lock_key("rust_backend"), generate_lock_key("rust_backend"));
    let owned = String::from("rust_backend");
    assert_eq!(generate_lock_key(&owned), generate_lock_key("rust_backend"));
}

#[test]
fn lock_key_matches_fnv1a_vectors() {
    assert_eq!(generate_lock_key(""), -3750763034362895579);
    assert_eq!(generate_lock_key("a"), -5808556873153909620);
    assert_eq!(generate_lock_key("foobar"), -8821353812377114648);
}

#[test]
fn lock_key_of_service_namespaces() {
    assert_eq!(generate_lock_key("rust_backend"), 6128701824362388192);
    assert_eq!(generate_lock_key("rust_backend_test"), 9043656564786761645);
    assert_ne!(generate_lock_key("rust_backend"), generate_lock_key("rust_backend_test"));
}

#[test]
fn lock_key_hashes_utf8_bytes() {
    assert_eq!(generate_lock_key("é"), 775207407765167617);
}
