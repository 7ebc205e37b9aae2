use drop_core::settings::{
    check_download_dir, display_name, display_name_or, download_dir_or, normalize_display_name,
    trim, DisplayNameError,
};

#[test]
fn trim_agrees_with_the_standard_library_on_every_character() {
    for code in 0..=0x10ffffu32 {
        if let Some(c) = char::from_u32(code) {
            let padded = format!("{}a{}b{}", c, c, c);
            assert_eq!(trim(&padded), padded.trim(), "U+{:04X}", code);
        }
    }
}

#[test]
fn trim_on_plain_cases() {
    assert_eq!(trim(""), "");
    assert_eq!(trim("   "), "");
    assert_eq!(trim("\t\n x \r\n"), "x");
    assert_eq!(trim("a  b"), "a  b");
    assert_eq!(trim("  a  b"), "a  b");
    assert_eq!(trim("a  b  "), "a  b");
    assert_eq!(trim("\u{3000}\u{e9}\u{2003}"), "\u{e9}");
}

#[test]
fn display_names_are_trimmed() {
    assert_eq!(normalize_display_name("  Alice  "), Ok("Alice".to_string()));
    assert_eq!(normalize_display_name("Bob Smith"), Ok("Bob Smith".to_string()));
}

#[test]
fn empty_display_names_are_refused() {
    assert_eq!(normalize_display_name(""), Err(DisplayNameError::Empty));
    assert_eq!(normalize_display_name(" \t\n"), Err(DisplayNameError::Empty));
    assert_eq!(DisplayNameError::Empty.to_string(), "Display name cannot be empty");
}

#[test]
fn display_names_are_limited_to_fifty_bytes() {
    let fifty = "a".repeat(50);
    assert_eq!(normalize_display_name(&fifty), Ok(fifty.clone()));
    assert_eq!(normalize_display_name(&format!("  {}  ", fifty)), Ok(fifty));
    assert_eq!(normalize_display_name(&"a".repeat(51)), Err(DisplayNameError::TooLong));
    let accented = "\u{e9}".repeat(25);
    assert_eq!(normalize_display_name(&accented), Ok(accented));
    assert_eq!(normalize_display_name(&"\u{e9}".repeat(26)), Err(DisplayNameError::TooLong));
    assert_eq!(
        DisplayNameError::TooLong.to_string(),
        "Display name cannot exceed 50 characters"
    );
}

#[test]
fn display_name_falls_back_to_the_system_user() {
    assert_eq!(display_name_or(Some("Alice".to_string()), "alice01".to_string()), "Alice");
    assert_eq!(display_name_or(None, "alice01".to_string()), "alice01");
}

#[test]
fn download_directory_fallback_chain() {
    let custom = Some("/data/in".to_string());
    let system = Some("/home/alice/Downloads".to_string());
    assert_eq!(download_dir_or(custom.clone(), system.clone()), "/data/in");
    assert_eq!(download_dir_or(custom, None), "/data/in");
    assert_eq!(download_dir_or(None, system), "/home/alice/Downloads");
    assert_eq!(download_dir_or(None, None), "/storage/emulated/0/Download/");
}

#[test]
fn download_directory_must_exist_and_be_a_directory() {
    assert_eq!(check_download_dir("/data", true, true), Ok(()));
    assert_eq!(
        check_download_dir("/data", false, false),
        Err("Directory does not exist: /data".to_string())
    );
    assert_eq!(
        check_download_dir("/data/file", true, false),
        Err("Path is not a directory: /data/file".to_string())
    );
}

#[test]
fn display_name_asks_the_system_only_without_a_custom_name() {
    assert_eq!(display_name(Some("Alice".to_string())), "Alice");
    assert_eq!(display_name(None), whoami::username());
}
