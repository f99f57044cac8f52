use popup_lib::config::{
    make_webhook, resolve_custom_cli, resolve_notification_cli, AppConfig, Config, Content,
    CustomConfig, NotificationArgs, NotificationConfig, WebhookConfig,
};
use popup_lib::errors::{Button, ConfigError, ConfigField};
use popup_lib::window::{TitleBarStyle, WindowConfig, WindowOverrides};

fn no_overrides() -> WindowOverrides {
    WindowOverrides::empty()
}

fn notification_args(title: &str, description: &str) -> NotificationArgs {
    NotificationArgs {
        title: title.to_string(),
        description: description.to_string(),
        icon: None,
        button_primary_text: None,
        button_primary_webhook_url: None,
        button_primary_webhook_payload: None,
        button_secondary_text: None,
        button_secondary_webhook_url: None,
        button_secondary_webhook_payload: None,
    }
}

fn template() -> WindowConfig {
    WindowConfig {
        width: 500,
        height: 300,
        resizable: false,
        always_on_top: true,
        skip_taskbar: true,
        focus: true,
        visible_on_all_workspaces: true,
        closable: false,
        minimizable: false,
        hidden_title: true,
        title_bar_style: TitleBarStyle::Overlay,
    }
}

#[test]
fn custom_resolves_to_defaults_with_supplied_overrides() {
    let mut o = no_overrides();
    o.width = Some(400);
    let config = resolve_custom_cli("https://example.com".to_string(), Some("Hi".to_string()), o)
        .unwrap();
    match &config.content {
        Content::Custom(c) => {
            assert_eq!(c.url, "https://example.com");
            assert_eq!(c.window_title, Some("Hi".to_string()));
        }
        Content::Notification(_) => panic!("expected custom content"),
    }
    let w = config.window;
    assert_eq!(w.width, 400);
    assert_eq!(w.height, 600);
    assert!(!w.resizable);
    assert!(w.always_on_top);
    assert!(w.skip_taskbar);
    assert!(w.focus);
    assert!(w.visible_on_all_workspaces);
    assert!(!w.closable);
    assert!(!w.minimizable);
    assert!(w.hidden_title);
    assert_eq!(w.title_bar_style, TitleBarStyle::Overlay);
}

#[test]
fn custom_without_overrides_keeps_full_defaults() {
    let config = resolve_custom_cli("http://localhost:8080".to_string(), None, no_overrides())
        .unwrap();
    assert_eq!(config.window, WindowConfig::default());
}

#[test]
fn custom_every_field_overridable() {
    let o = WindowOverrides {
        width: Some(1024),
        height: Some(768),
        resizable: Some(true),
        always_on_top: Some(false),
        skip_taskbar: Some(false),
        focus: Some(false),
        visible_on_all_workspaces: Some(false),
        closable: Some(true),
        minimizable: Some(true),
        hidden_title: Some(false),
        title_bar_style: Some("visible".to_string()),
    };
    let config = resolve_custom_cli("https://example.com".to_string(), None, o).unwrap();
    let w = config.window;
    assert_eq!(w.width, 1024);
    assert_eq!(w.height, 768);
    assert!(w.resizable);
    assert!(!w.always_on_top);
    assert!(!w.skip_taskbar);
    assert!(!w.focus);
    assert!(!w.visible_on_all_workspaces);
    assert!(w.closable);
    assert!(w.minimizable);
    assert!(!w.hidden_title);
    assert_eq!(w.title_bar_style, TitleBarStyle::Visible);
}

#[test]
fn notification_window_forced_to_template() {
    let config = resolve_notification_cli(notification_args("Update", "Now"), &no_overrides())
        .unwrap();
    assert_eq!(config.window, template());
    match &config.content {
        Content::Notification(n) => {
            assert_eq!(n.title, "Update");
            assert_eq!(n.description, "Now");
            assert_eq!(n.icon, None);
        }
        Content::Custom(_) => panic!("expected notification content"),
    }
}

#[test]
fn notification_ignores_window_overrides() {
    let o = WindowOverrides {
        width: Some(9999),
        height: Some(1),
        resizable: Some(true),
        always_on_top: Some(false),
        skip_taskbar: Some(false),
        focus: Some(false),
        visible_on_all_workspaces: Some(false),
        closable: Some(true),
        minimizable: Some(true),
        hidden_title: Some(false),
        title_bar_style: Some("transparent".to_string()),
    };
    let config = resolve_notification_cli(notification_args("Update", "Now"), &o).unwrap();
    assert_eq!(config.window, template());
}

#[test]
fn webhook_url_without_payload_fails_primary() {
    let mut a = notification_args("t", "d");
    a.button_primary_webhook_url = Some("https://hook".to_string());
    let err = resolve_notification_cli(a, &no_overrides()).unwrap_err();
    assert_eq!(err, ConfigError::IncompleteWebhook(Button::Primary));
}

#[test]
fn webhook_payload_without_url_fails_secondary() {
    let mut a = notification_args("t", "d");
    a.button_secondary_webhook_payload = Some("{}".to_string());
    let err = resolve_notification_cli(a, &no_overrides()).unwrap_err();
    assert_eq!(err, ConfigError::IncompleteWebhook(Button::Secondary));
}

#[test]
fn webhook_with_both_halves_succeeds() {
    let mut a = notification_args("t", "d");
    a.button_primary_webhook_url = Some("https://hook".to_string());
    a.button_primary_webhook_payload = Some("{\"a\":1}".to_string());
    let config = resolve_notification_cli(a, &no_overrides()).unwrap();
    match &config.content {
        Content::Notification(n) => {
            assert_eq!(
                n.button_primary_webhook,
                Some(WebhookConfig {
                    url: "https://hook".to_string(),
                    payload: "{\"a\":1}".to_string(),
                })
            );
            assert_eq!(n.button_secondary_webhook, None);
        }
        Content::Custom(_) => panic!("expected notification content"),
    }
}

#[test]
fn make_webhook_pairs_exactly() {
    assert_eq!(
        make_webhook(None, None, Button::Primary),
        Ok(None)
    );
    assert_eq!(
        make_webhook(Some("u".to_string()), None, Button::Secondary),
        Err(ConfigError::IncompleteWebhook(Button::Secondary))
    );
    assert_eq!(
        make_webhook(None, Some("p".to_string()), Button::Primary),
        Err(ConfigError::IncompleteWebhook(Button::Primary))
    );
}

#[test]
fn custom_url_scheme_rejected() {
    let err = resolve_custom_cli("ftp://example.com".to_string(), None, no_overrides())
        .unwrap_err();
    assert_eq!(err, ConfigError::InvalidUrlScheme("ftp://example.com".to_string()));
    let err = resolve_custom_cli("example.com".to_string(), None, no_overrides()).unwrap_err();
    assert_eq!(err, ConfigError::InvalidUrlScheme("example.com".to_string()));
}

#[test]
fn custom_url_all_three_schemes_accepted() {
    for url in ["http://a", "https://a", "file:///tmp/x.html"] {
        let config = resolve_custom_cli(url.to_string(), None, no_overrides()).unwrap();
        match &config.content {
            Content::Custom(c) => assert_eq!(c.url, url),
            Content::Notification(_) => panic!("expected custom content"),
        }
    }
}

#[test]
fn scheme_check_is_exact() {
    // A bare scheme with nothing after it still counts as that scheme.
    assert!(resolve_custom_cli("http://".to_string(), None, no_overrides()).is_ok());
    // The check is case-sensitive, as the scheme prefixes are written.
    let err = resolve_custom_cli("HTTP://a".to_string(), None, no_overrides()).unwrap_err();
    assert_eq!(err, ConfigError::InvalidUrlScheme("HTTP://a".to_string()));
    // A scheme in the middle of the url does not count.
    let err = resolve_custom_cli("x http://a".to_string(), None, no_overrides()).unwrap_err();
    assert_eq!(err, ConfigError::InvalidUrlScheme("x http://a".to_string()));
}

#[test]
fn zero_dimension_rejected() {
    let mut o = no_overrides();
    o.width = Some(0);
    let err = resolve_custom_cli("https://a".to_string(), None, o).unwrap_err();
    assert_eq!(err, ConfigError::InvalidDimension);
    let mut o = no_overrides();
    o.height = Some(0);
    let err = resolve_custom_cli("https://a".to_string(), None, o).unwrap_err();
    assert_eq!(err, ConfigError::InvalidDimension);
}

#[test]
fn to_config_requires_exactly_one_section() {
    let neither = AppConfig { notification: None, custom: None };
    assert_eq!(neither.to_config().unwrap_err(), ConfigError::MissingSection);

    let both = AppConfig {
        notification: Some(NotificationConfig {
            title: "t".to_string(),
            description: "d".to_string(),
            icon: None,
            button_primary_text: None,
            button_primary_webhook: None,
            button_secondary_text: None,
            button_secondary_webhook: None,
        }),
        custom: Some(CustomConfig {
            url: "https://a".to_string(),
            title: None,
            window: None,
        }),
    };
    assert_eq!(both.to_config().unwrap_err(), ConfigError::MissingSection);
}

#[test]
fn to_config_notification_section_gets_template() {
    let app = AppConfig {
        notification: Some(NotificationConfig {
            title: "t".to_string(),
            description: "d".to_string(),
            icon: Some("icon.png".to_string()),
            button_primary_text: Some("Ok".to_string()),
            button_primary_webhook: None,
            button_secondary_text: None,
            button_secondary_webhook: None,
        }),
        custom: None,
    };
    let config = app.to_config().unwrap();
    assert_eq!(config.window, template());
}

#[test]
fn cli_and_file_custom_resolve_identically() {
    let mut o = no_overrides();
    o.width = Some(640);
    o.title_bar_style = Some("transparent".to_string());

    let from_file: Config = AppConfig {
        notification: None,
        custom: Some(CustomConfig {
            url: "https://example.com".to_string(),
            title: Some("Hi".to_string()),
            window: Some(o.clone()),
        }),
    }
    .to_config()
    .unwrap();

    let from_cli: Config =
        resolve_custom_cli("https://example.com".to_string(), Some("Hi".to_string()), o).unwrap();

    assert_eq!(from_file, from_cli);
}

#[test]
fn missing_field_errors_carry_the_field() {
    assert_ne!(
        ConfigError::MissingField(ConfigField::Title),
        ConfigError::MissingField(ConfigField::Description)
    );
}
