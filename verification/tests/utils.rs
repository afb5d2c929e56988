use rcli::{same_bytes, same_text, verify_file, verify_input_file, verify_path};

/// Whether something of that name is there. The library looks at no file
/// system; a front end tells it what a look found.
fn is_there(name: &str) -> bool {
    matches!(name, "Cargo.toml" | "fixtures" | "fixtures/base64.txt")
}

fn is_dir(name: &str) -> bool {
    matches!(name, "fixtures" | ".")
}

#[test]
fn test_verify_file() {
    assert_eq!(verify_file("-", is_there("-")), Ok("-".into()));
    assert_eq!(verify_file("Cargo.toml", is_there("Cargo.toml")), Ok("Cargo.toml".into()));
    assert_eq!(
        verify_file("not_exist_file", is_there("not_exist_file")),
        Err("File dose not exist")
    );
}

#[test]
fn a_dash_needs_no_file() {
    assert_eq!(verify_file("-", false), Ok("-".to_string()));
    assert_eq!(verify_file("-", true), Ok("-".to_string()));
    assert_eq!(verify_file("--", false), Err("File dose not exist"));
    assert_eq!(verify_file("", false), Err("File dose not exist"));
    assert_eq!(verify_input_file("-", false), Err("File dose not exist"));
    assert_eq!(verify_input_file("-", true), Ok("-".to_string()));
    assert_eq!(verify_input_file("Cargo.toml", true), Ok("Cargo.toml".to_string()));
}

#[test]
fn a_path_must_be_a_directory() {
    assert_eq!(verify_path("fixtures", is_dir("fixtures")), Ok("fixtures".to_string()));
    assert_eq!(verify_path(".", is_dir(".")), Ok(".".to_string()));
    assert_eq!(verify_path("Cargo.toml", is_dir("Cargo.toml")), Err("Path dose not exist"));
    assert_eq!(verify_path("nowhere", is_dir("nowhere")), Err("Path dose not exist"));
}

#[test]
fn same_text_compares_every_character() {
    assert!(same_text("", ""));
    assert!(same_text("blake3", "blake3"));
    assert!(!same_text("blake3", "Blake3"));
    assert!(!same_text("blake3", "blake"));
    assert!(!same_text("blake", "blake3"));
    assert!(same_text("h\u{e9}", "h\u{e9}"));
    assert!(!same_text("h\u{e9}", "he"));
}

#[test]
fn same_bytes_compares_every_byte() {
    assert!(same_bytes(b"", b""));
    assert!(same_bytes(b"abc", b"abc"));
    assert!(!same_bytes(b"abc", b"abd"));
    assert!(!same_bytes(b"abc", b"ab"));
    assert!(!same_bytes(b"", b"a"));
}
