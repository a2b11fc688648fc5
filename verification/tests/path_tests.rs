use shared_kit::paths::{expand_dir, get_default_config_path, join_with_config_dir};

#[test]
fn test_join_with_config_dir_with_parent_relative_path() {
    let config_path = "/home/user/.config/shared-kit-cli/metadata.toml".to_string();
    let relative = "../templates/default";

    let result = join_with_config_dir(Some(&config_path), relative);
    let expected = "/home/user/.config/templates/default";

    assert_eq!(result, expected);
}

#[test]
fn test_join_with_config_dir_with_dot_relative_path() {
    let config_path = "/home/user/.config/shared-kit-cli/metadata.toml".to_string();
    let relative = "./templates/abc";

    let result = join_with_config_dir(Some(&config_path), relative);
    let expected = "/home/user/.config/shared-kit-cli/templates/abc";

    assert_eq!(result, expected);
}

#[test]
fn test_join_with_config_dir_with_direct_file_name() {
    let config_path = "/home/user/.config/shared-kit-cli/metadata.toml".to_string();
    let relative = "file.txt";

    let result = join_with_config_dir(Some(&config_path), relative);
    let expected = "/home/user/.config/shared-kit-cli/file.txt";

    assert_eq!(result, expected);
}

#[test]
fn test_join_with_config_dir_none_config_path() {
    let relative = "something/else";

    let result = join_with_config_dir(None, relative);
    let expected = "something/else";

    assert_eq!(result, expected);
}

#[test]
fn test_expand_dir_with_tilde() {
    let home = dirs::home_dir().expect("Home dir should exist");
    let input = "~/test/path";
    let result = expand_dir(input).expect("expand_dir returned None");

    assert_eq!(result, format!("{}/test/path", home.display()));
}

#[test]
fn test_expand_dir_without_tilde() {
    let input = "/usr/bin";
    let result = expand_dir(input).expect("expand_dir returned None");

    assert_eq!(result, "/usr/bin");
}

#[test]
fn test_default_config_path_suffix() {
    if let Some(p) = get_default_config_path() {
        assert!(p.ends_with("/shared-kit-cli/metadata.toml"));
    }
}
