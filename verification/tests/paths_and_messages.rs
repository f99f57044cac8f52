use popup_lib::errors::{Button, ConfigError, ConfigField};
use popup_lib::paths::expand_path;
use popup_lib::window::{normalize_title_bar_style, parse_title_bar_style, TitleBarStyle};

#[test]
fn tilde_path_expands_to_home() {
    assert_eq!(
        expand_path("~/popup.yaml", "/home/someone", "/work"),
        "/home/someone/popup.yaml"
    );
}

#[test]
fn relative_path_is_anchored_at_cwd() {
    assert_eq!(
        expand_path("conf/popup.yaml", "/home/someone", "/work"),
        "/work/conf/popup.yaml"
    );
}

#[test]
fn absolute_path_is_kept() {
    assert_eq!(
        expand_path("/etc/popup.yaml", "/home/someone", "/work"),
        "/etc/popup.yaml"
    );
}

#[test]
fn bare_tilde_slash_expands_to_home_root() {
    assert_eq!(expand_path("~/", "/home/someone", "/work"), "/home/someone/");
}

#[test]
fn tilde_without_slash_is_treated_as_relative() {
    assert_eq!(expand_path("~popup", "/home/someone", "/work"), "/work/~popup");
}

#[test]
fn title_bar_tokens_parse_exactly() {
    assert_eq!(parse_title_bar_style("overlay"), Some(TitleBarStyle::Overlay));
    assert_eq!(parse_title_bar_style("transparent"), Some(TitleBarStyle::Transparent));
    assert_eq!(parse_title_bar_style("visible"), Some(TitleBarStyle::Visible));
    assert_eq!(parse_title_bar_style("Overlay"), None);
    assert_eq!(parse_title_bar_style(""), None);
}

#[test]
fn unknown_token_normalizes_to_overlay_with_a_warning_flag() {
    assert_eq!(normalize_title_bar_style("shiny"), (TitleBarStyle::Overlay, false));
    assert_eq!(normalize_title_bar_style("visible"), (TitleBarStyle::Visible, true));
}

#[test]
fn error_messages_name_the_problem() {
    assert_eq!(
        ConfigError::MissingSection.message(),
        "config must contain exactly one of the 'notification' or 'custom' sections"
    );
    assert_eq!(
        ConfigError::MissingField(ConfigField::Title).message(),
        "missing required field 'title'"
    );
    assert_eq!(
        ConfigError::IncompleteWebhook(Button::Primary).message(),
        "primary button webhook needs both a url and a payload"
    );
    assert_eq!(
        ConfigError::InvalidUrlScheme("x".to_string()).message(),
        "url must start with http://, https://, or file://: x"
    );
    assert_eq!(
        ConfigError::InvalidDimension.message(),
        "window width and height must be positive"
    );
    assert_eq!(
        ConfigError::IoError("no such file".to_string()).message(),
        "failed to read config file: no such file"
    );
    assert!(ConfigError::ParseError("bad".to_string()).message().starts_with(
        "failed to parse YAML config:"
    ));
}
