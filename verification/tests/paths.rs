use std::path::PathBuf;

use enpitsu::paths::{
    appdata_dir_from, config_dir_from, config_file, data_dir_from, default_dict_file, join_path,
    user_dict_file, PathStyle,
};

// === Linux: configuration directory ===

#[test]
fn config_dir_uses_xdg_config_home() {
    let dir = config_dir_from(Some("/custom/config"), "/home/alice");
    assert_eq!(PathBuf::from(dir), PathBuf::from("/custom/config/enpitsu"));
}

#[test]
fn config_dir_falls_back_to_home() {
    // unset
    let dir = config_dir_from(None, "/home/alice");
    assert_eq!(PathBuf::from(dir), PathBuf::from("/home/alice/.config/enpitsu"));
    // an empty value counts as unset
    let dir_empty = config_dir_from(Some(""), "/home/alice");
    assert_eq!(PathBuf::from(dir_empty), PathBuf::from("/home/alice/.config/enpitsu"));
}

// === Linux: data directory ===

#[test]
fn data_dir_uses_xdg_data_home() {
    let dir = data_dir_from(Some("/custom/data"), "/home/alice");
    assert_eq!(PathBuf::from(dir), PathBuf::from("/custom/data/enpitsu"));
}

#[test]
fn data_dir_falls_back_to_home() {
    let dir = data_dir_from(None, "/home/alice");
    assert_eq!(PathBuf::from(dir), PathBuf::from("/home/alice/.local/share/enpitsu"));
    let dir_empty = data_dir_from(Some(""), "/home/alice");
    assert_eq!(PathBuf::from(dir_empty), PathBuf::from("/home/alice/.local/share/enpitsu"));
}

// === Windows: configuration directory ===

#[test]
fn config_dir_uses_appdata() {
    // `PathBuf::from(r"C:\Users\alice\AppData\Roaming").join("enpitsu")` on Windows
    let dir = appdata_dir_from(Some(r"C:\Users\alice\AppData\Roaming"));
    assert_eq!(dir, r"C:\Users\alice\AppData\Roaming\enpitsu");
}

// === File paths (relations that hold whatever the directory) ===

#[test]
fn config_file_path_is_config_toml() {
    let config_dir = config_dir_from(None, "/home/alice");
    let file = PathBuf::from(config_file(PathStyle::Unix, &config_dir));
    assert_eq!(file, PathBuf::from(&config_dir).join("config.toml"));
    assert!(file.ends_with("config.toml"));
}

#[test]
fn default_dict_path_under_data_dir() {
    let data_dir = data_dir_from(None, "/home/alice");
    let file = PathBuf::from(default_dict_file(PathStyle::Unix, &data_dir));
    assert_eq!(file, PathBuf::from(&data_dir).join("dict").join("SKK-JISYO.L"));
    assert!(file.ends_with("SKK-JISYO.L"));
}

#[test]
fn user_dict_path_under_data_dir() {
    let data_dir = data_dir_from(None, "/home/alice");
    let file = PathBuf::from(user_dict_file(PathStyle::Unix, &data_dir));
    assert_eq!(file, PathBuf::from(&data_dir).join("user_dict.txt"));
    assert!(file.ends_with("user_dict.txt"));
}

// === Further cases ===

#[test]
fn appdata_unset_or_empty_uses_current_dir() {
    assert_eq!(appdata_dir_from(None), r".\enpitsu");
    assert_eq!(appdata_dir_from(Some("")), r".\enpitsu");
}

#[test]
fn join_path_adds_one_separator() {
    let unix = PathStyle::Unix;
    assert_eq!(join_path(unix, "/a", "b"), "/a/b");
    assert_eq!(join_path(unix, "/a/", "b"), "/a/b");
    assert_eq!(join_path(unix, "", "b"), "b");
    assert_eq!(join_path(unix, r"a\", "b"), r"a\/b");
    assert_eq!(PathBuf::from(join_path(unix, "/a/", "b")), PathBuf::from("/a/").join("b"));
    assert_eq!(PathBuf::from(join_path(unix, "", "b")), PathBuf::from("").join("b"));
}

#[test]
fn join_path_windows_rules() {
    let win = PathStyle::Windows;
    assert_eq!(join_path(win, r"C:\a", "b"), r"C:\a\b");
    assert_eq!(join_path(win, r"C:\a\", "b"), r"C:\a\b");
    assert_eq!(join_path(win, "C:/a/", "b"), "C:/a/b");
    assert_eq!(join_path(win, r"C:\", "b"), r"C:\b");
    // a bare drive takes the component without a separator
    assert_eq!(join_path(win, "C:", "b"), "C:b");
    assert_eq!(appdata_dir_from(Some("D:")), "D:enpitsu");
    assert_eq!(join_path(win, "", "b"), "b");
}

#[test]
fn empty_home_gives_relative_paths() {
    assert_eq!(config_dir_from(None, ""), ".config/enpitsu");
    assert_eq!(data_dir_from(Some(""), ""), ".local/share/enpitsu");
}

#[test]
fn file_paths_exact_text() {
    assert_eq!(config_file(PathStyle::Unix, "/etc/enpitsu"), "/etc/enpitsu/config.toml");
    assert_eq!(default_dict_file(PathStyle::Unix, "/d"), "/d/dict/SKK-JISYO.L");
    assert_eq!(user_dict_file(PathStyle::Unix, "/d/"), "/d/user_dict.txt");
    assert_eq!(
        config_file(PathStyle::Windows, r"C:\Users\alice\AppData\Roaming\enpitsu"),
        r"C:\Users\alice\AppData\Roaming\enpitsu\config.toml"
    );
    assert_eq!(default_dict_file(PathStyle::Windows, r"C:\x"), r"C:\x\dict\SKK-JISYO.L");
}
