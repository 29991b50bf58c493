use unix_named_pipe::{effective_mode, expected_permissions, permission_bits, DEFAULT_MODE};

#[test]
fn default_mode_is_0644() {
    assert_eq!(effective_mode(None), 0o644);
    assert_eq!(DEFAULT_MODE, 0o644);
}

#[test]
fn explicit_mode_is_kept() {
    assert_eq!(effective_mode(Some(0o740)), 0o740);
}

#[test]
fn umask_clears_its_bits() {
    assert_eq!(expected_permissions(0o666, 0o022), 0o644);
}

#[test]
fn zero_umask_keeps_requested_permissions() {
    assert_eq!(expected_permissions(0o644, 0), 0o644);
}

#[test]
fn permission_bits_strip_the_type_tag() {
    assert_eq!(permission_bits(0o010644), 0o644);
}

#[test]
fn created_permissions_match_a_metadata_query() {
    // A FIFO created with the default mode under the usual umask shows these
    // permission bits in its raw mode word.
    let shown = permission_bits(0o010644);
    let expected = expected_permissions(effective_mode(None), 0o022);
    assert_eq!(shown, expected);
}
