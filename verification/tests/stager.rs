use reload::identity::SessionIdentity;
use reload::stager::{
    descriptor_contents, fresh_staged_file_name, parse_descriptor, staged_file_name,
    staging_dir_name, u64_to_decimal, DescriptorError, FILE_TAG_LIMIT,
};

#[test]
fn staging_dir_name_carries_encoded_identity() {
    let id = SessionIdentity { time_part: 3700000, rand_part: 8200000 };
    assert_eq!(staging_dir_name(&id), "vsthotload37000008200000");
}

#[test]
fn staged_file_name_carries_tag() {
    assert_eq!(staged_file_name(0), "reloaded0.dll");
    assert_eq!(staged_file_name(123), "reloaded123.dll");
    assert_eq!(staged_file_name(65535), "reloaded65535.dll");
}

#[test]
fn fresh_staged_file_name_is_well_formed() {
    let name = fresh_staged_file_name();
    let tag = name
        .strip_prefix("reloaded")
        .and_then(|rest| rest.strip_suffix(".dll"))
        .expect("name has the fixed prefix and suffix");
    let tag: u64 = tag.parse().expect("the middle is a decimal tag");
    assert!(tag < FILE_TAG_LIMIT);
}

#[test]
fn decimal_rendering() {
    assert_eq!(u64_to_decimal(0), "0");
    assert_eq!(u64_to_decimal(7), "7");
    assert_eq!(u64_to_decimal(65535), "65535");
    assert_eq!(u64_to_decimal(1000000), "1000000");
}

#[test]
fn descriptor_round_trip() {
    let written = descriptor_contents("/tmp/vsthotload123/reloaded77.dll");
    assert_eq!(written, "current_lib_file: /tmp/vsthotload123/reloaded77.dll");
    assert_eq!(
        parse_descriptor(&written),
        Ok(String::from("/tmp/vsthotload123/reloaded77.dll"))
    );
}

#[test]
fn descriptor_rejects_malformed_records() {
    assert_eq!(parse_descriptor(""), Err(DescriptorError::Malformed));
    assert_eq!(parse_descriptor("nonsense"), Err(DescriptorError::Malformed));
    // The key must match exactly, space included.
    assert_eq!(
        parse_descriptor("current_lib_file:/tmp/x.dll"),
        Err(DescriptorError::Malformed)
    );
    assert_eq!(
        parse_descriptor("Current_lib_file: /tmp/x.dll"),
        Err(DescriptorError::Malformed)
    );
}

#[test]
fn descriptor_of_empty_path_round_trips() {
    let written = descriptor_contents("");
    assert_eq!(parse_descriptor(&written), Ok(String::new()));
}
