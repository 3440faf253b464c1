use libghr::error::GhrError;
use libghr::source::{sysfs_value_opt_i32, sysfs_value_opt_string, sysfs_value_opt_u32, sysfs_value_string, sysfs_value_u64};
use libghr::text::{contains_str, parse_u64, trim_string};

#[test]
fn strict_reads_report_why_they_failed() {
    assert_eq!(sysfs_value_u64(Ok(" 42\n".to_string())), Ok(42));
    assert!(matches!(sysfs_value_u64(Err("denied".to_string())), Err(GhrError::ComponentInfoInaccessible(_))));
    assert!(matches!(sysfs_value_u64(Ok("4x".to_string())), Err(GhrError::ComponentInfoWeirdInfo(_))));
    assert_eq!(sysfs_value_string(Ok("  Li-ion\n".to_string())), Ok("Li-ion".to_string()));
}

#[test]
fn tolerant_reads_give_nothing_on_failure() {
    assert_eq!(sysfs_value_opt_u32(Some("1500\n".to_string())), Some(1500));
    assert_eq!(sysfs_value_opt_u32(Some("99999999999".to_string())), None);
    assert_eq!(sysfs_value_opt_u32(None), None);
    assert_eq!(sysfs_value_opt_i32(Some("-3".to_string())), Some(-3));
    assert_eq!(sysfs_value_opt_i32(Some("-2147483648".to_string())), Some(i32::MIN));
    assert_eq!(sysfs_value_opt_i32(Some("-+3".to_string())), None);
    assert_eq!(sysfs_value_opt_string(Some(" x ".to_string())), Some("x".to_string()));
}

#[test]
fn number_parsing_matches_std() {
    for t in ["0", "+7", "18446744073709551615", "18446744073709551616", "", "+", "-1", "1 2", " 12 "] {
        assert_eq!(parse_u64(t), t.trim().parse::<u64>().ok(), "{t}");
    }
}

#[test]
fn text_helpers() {
    assert_eq!(trim_string("\u{a0} a b \t"), "a b");
    assert!(contains_str("freeze mem", "mem"));
    assert!(!contains_str("mem", "memory"));
    assert!(contains_str("x", ""));
}
