use chat_conformance::scenario::Credential;
use chat_conformance::target::Target;

#[test]
fn absent_settings_give_the_defaults() {
    let t = Target::resolve(None, None);
    assert_eq!(t.base_url, "http://localhost:8080");
    assert_eq!(t.api_key, "testkey");
}

#[test]
fn present_settings_are_taken_as_they_are() {
    let t = Target::resolve(Some("https://example.test:9".to_string()), Some("sk-1".to_string()));
    assert_eq!(t.base_url, "https://example.test:9");
    assert_eq!(t.api_key, "sk-1");
    let t = Target::resolve(Some(String::new()), None);
    assert_eq!(t.base_url, "");
    assert_eq!(t.api_key, "testkey");
    let t = Target::resolve(None, Some(String::new()));
    assert_eq!(t.base_url, "http://localhost:8080");
    assert_eq!(t.api_key, "");
}

#[test]
fn api_base_appends_the_version_path() {
    assert_eq!(Target::resolve(None, None).api_base(), "http://localhost:8080/v1");
    let t = Target::resolve(Some("http://h".to_string()), None);
    assert_eq!(t.api_base(), "http://h/v1");
    let t = Target::resolve(Some("http://h/".to_string()), None);
    assert_eq!(t.api_base(), "http://h//v1");
}

#[test]
fn key_for_a_scenario() {
    let t = Target::resolve(None, Some("configured".to_string()));
    assert_eq!(t.key_for(&Credential::Configured), "configured");
    assert_eq!(t.key_for(&Credential::Key("invalid-key-12345".to_string())), "invalid-key-12345");
    assert_eq!(t.key_for(&Credential::Key(String::new())), "");
}

#[test]
fn short_key_is_shown_whole() {
    assert_eq!(Target::resolve(None, None).key_display(), "testkey");
    assert_eq!(Target::resolve(None, Some(String::new())).key_display(), "");
    assert_eq!(Target::resolve(None, Some("abc".to_string())).key_display(), "abc");
}

#[test]
fn long_key_is_cut_after_seven_characters() {
    let t = Target::resolve(None, Some("testkey1".to_string()));
    assert_eq!(t.key_display(), "testkey...");
    let t = Target::resolve(None, Some("sk-proj-abcdefghij".to_string()));
    assert_eq!(t.key_display(), "sk-proj...");
}

#[test]
fn key_is_cut_between_characters() {
    let t = Target::resolve(None, Some("\u{4E2D}\u{6587}\u{4E2D}\u{6587}\u{4E2D}\u{6587}\u{4E2D}\u{6587}".to_string()));
    assert_eq!(t.key_display(), "\u{4E2D}\u{6587}\u{4E2D}\u{6587}\u{4E2D}\u{6587}\u{4E2D}...");
}
