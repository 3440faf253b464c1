use libghr::cli::{confirm_answer, upload_target};

#[test]
fn confirmation_answers() {
    assert_eq!(confirm_answer("Y\n"), Some(true));
    assert_eq!(confirm_answer("  yuh "), Some(true));
    assert_eq!(confirm_answer("\n"), Some(true));
    assert_eq!(confirm_answer("FALSE"), Some(false));
    assert_eq!(confirm_answer("n"), Some(false));
    assert_eq!(confirm_answer("maybe"), None);
}

#[test]
fn upload_targets() {
    let t = upload_target("http://localhost:8080").unwrap();
    assert_eq!(t.host, "localhost");
    assert_eq!(t.port, 8080);
    assert_eq!(t.path, "/add_report");
    let t = upload_target("http://example.org/api").unwrap();
    assert_eq!(t.port, 80);
    assert_eq!(t.path, "/api/add_report");
    assert!(upload_target("https://example.org").is_none());
    assert!(upload_target("http://:80").is_none());
    assert!(upload_target("http://h:99999").is_none());
}
