//! The configuration model and the resolution rules: section selection,
//! content construction, webhook pairing, URL scheme and dimension checks,
//! and the template enforcement for notification popups.

use vstd::prelude::*;
use crate::errors::{Button, ConfigError};
use crate::strutil::{is_prefix_of, str_has_prefix};
use crate::window::{
    spec_default_window, spec_empty_overrides, spec_merge, spec_notification_template,
    WindowConfig, WindowOverrides,
};

verus! {

/// A url and the payload posted to it when the button is pressed; the two
/// are only ever valid together.
#[derive(Clone, Debug, PartialEq)]
pub struct WebhookConfig {
    pub url: String,
    pub payload: String,
}

/// The payload of a notification popup.
#[derive(Clone, Debug, PartialEq)]
pub struct NotificationContent {
    pub title: String,
    pub description: String,
    pub icon: Option<String>,
    pub button_primary_text: Option<String>,
    pub button_primary_webhook: Option<WebhookConfig>,
    pub button_secondary_text: Option<String>,
    pub button_secondary_webhook: Option<WebhookConfig>,
}

/// The payload of a URL-backed popup.
#[derive(Clone, Debug, PartialEq)]
pub struct CustomContent {
    pub url: String,
    pub window_title: Option<String>,
}

/// What the popup shows: exactly one of the two payload kinds.
#[derive(Clone, Debug, PartialEq)]
pub enum Content {
    Custom(CustomContent),
    Notification(NotificationContent),
}

/// A fully resolved configuration: the content together with a completely
/// populated window description.
#[derive(Clone, Debug, PartialEq)]
pub struct Config {
    pub content: Content,
    pub window: WindowConfig,
}

/// The `notification` section of a configuration document, with its required
/// fields present and its webhooks complete.
#[derive(Clone, Debug, PartialEq)]
pub struct NotificationConfig {
    pub title: String,
    pub description: String,
    pub icon: Option<String>,
    pub button_primary_text: Option<String>,
    pub button_primary_webhook: Option<WebhookConfig>,
    pub button_secondary_text: Option<String>,
    pub button_secondary_webhook: Option<WebhookConfig>,
}

/// The `custom` section of a configuration document.
#[derive(Clone, Debug, PartialEq)]
pub struct CustomConfig {
    pub url: String,
    pub title: Option<String>,
    pub window: Option<WindowOverrides>,
}

/// A whole configuration document: at most one section of each kind, of
/// which exactly one must be present for resolution to succeed.
#[derive(Clone, Debug, PartialEq)]
pub struct AppConfig {
    pub notification: Option<NotificationConfig>,
    pub custom: Option<CustomConfig>,
}

/// The url starts with one of the three accepted schemes.
pub open spec fn spec_has_allowed_scheme(url: Seq<char>) -> bool {
    ||| is_prefix_of("http://"@, url)
    ||| is_prefix_of("https://"@, url)
    ||| is_prefix_of("file://"@, url)
}

/// The url starts with `http://`, `https://`, or `file://`.
pub fn has_allowed_scheme(url: &str) -> (r: bool)
    ensures
        r == spec_has_allowed_scheme(url@),
{
    str_has_prefix(url, "http://") || str_has_prefix(url, "https://") || str_has_prefix(
        url,
        "file://",
    )
}

/// The notification payload carried over from a `notification` section,
/// field for field.
pub open spec fn spec_notification_content(n: NotificationConfig) -> NotificationContent {
    NotificationContent {
        title: n.title,
        description: n.description,
        icon: n.icon,
        button_primary_text: n.button_primary_text,
        button_primary_webhook: n.button_primary_webhook,
        button_secondary_text: n.button_secondary_text,
        button_secondary_webhook: n.button_secondary_webhook,
    }
}

/// Resolution of a `custom` section, fail-fast: first the scheme check, then
/// the merge of the section's overrides onto the defaults, then the
/// dimension check.
pub open spec fn spec_resolve_custom(c: CustomConfig) -> Result<Config, ConfigError> {
    if !spec_has_allowed_scheme(c.url@) {
        Err(ConfigError::InvalidUrlScheme(c.url))
    } else {
        let w = spec_merge(
            spec_default_window(),
            match c.window {
                Some(o) => o,
                None => spec_empty_overrides(),
            },
        );
        if w.width == 0 || w.height == 0 {
            Err(ConfigError::InvalidDimension)
        } else {
            Ok(
                Config {
                    content: Content::Custom(CustomContent { url: c.url, window_title: c.title }),
                    window: w,
                },
            )
        }
    }
}

/// Resolution of a whole document. Exactly one section must be present:
/// none, or ambiguously both, is refused. A notification's window is always
/// the fixed template; a custom window is the defaults with the section's
/// overrides applied, validated.
pub open spec fn spec_to_config(c: AppConfig) -> Result<Config, ConfigError> {
    match (c.notification, c.custom) {
        (Some(_), Some(_)) => Err(ConfigError::MissingSection),
        (None, None) => Err(ConfigError::MissingSection),
        (Some(n), None) => Ok(
            Config {
                content: Content::Notification(spec_notification_content(n)),
                window: spec_notification_template(),
            },
        ),
        (None, Some(cu)) => spec_resolve_custom(cu),
    }
}

/// Every resolved configuration satisfies this shape: positive dimensions, a
/// notification window equal to the fixed template, and a custom url with an
/// accepted scheme.
pub open spec fn spec_config_wf(c: Config) -> bool {
    &&& c.window.width > 0
    &&& c.window.height > 0
    &&& (c.content is Notification ==> c.window == spec_notification_template())
    &&& (c.content matches Content::Custom(cc) ==> spec_has_allowed_scheme(cc.url@))
}

/// Resolve a `custom` section against the built-in defaults.
pub fn resolve_custom(cu: CustomConfig) -> (r: Result<Config, ConfigError>)
    ensures
        r == spec_resolve_custom(cu),
{
    if !has_allowed_scheme(cu.url.as_str()) {
        return Err(ConfigError::InvalidUrlScheme(cu.url));
    }
    let o = match cu.window {
        Some(o) => o,
        None => WindowOverrides::empty(),
    };
    let w = WindowConfig::default().merge_overrides(&o);
    if w.width == 0 || w.height == 0 {
        return Err(ConfigError::InvalidDimension);
    }
    Ok(
        Config {
            content: Content::Custom(CustomContent { url: cu.url, window_title: cu.title }),
            window: w,
        },
    )
}

impl AppConfig {
    /// Resolve the document into a validated configuration, or the first
    /// error found.
    pub fn to_config(self) -> (r: Result<Config, ConfigError>)
        ensures
            r == spec_to_config(self),
    {
        match (self.notification, self.custom) {
            (Some(_), Some(_)) => Err(ConfigError::MissingSection),
            (None, None) => Err(ConfigError::MissingSection),
            (Some(n), None) => Ok(
                Config {
                    content: Content::Notification(
                        NotificationContent {
                            title: n.title,
                            description: n.description,
                            icon: n.icon,
                            button_primary_text: n.button_primary_text,
                            button_primary_webhook: n.button_primary_webhook,
                            button_secondary_text: n.button_secondary_text,
                            button_secondary_webhook: n.button_secondary_webhook,
                        },
                    ),
                    window: WindowConfig::notification_template(),
                },
            ),
            (None, Some(cu)) => resolve_custom(cu),
        }
    }
}

/// Every configuration that resolution hands out is well-formed in the sense
/// of [`spec_config_wf`].
pub proof fn lemma_resolved_config_wf(a: AppConfig)
    ensures
        spec_to_config(a) matches Ok(c) ==> spec_config_wf(c),
{
}

/// Webhook pairing: a url and a payload yield a webhook, neither yields
/// none, and one without the other is refused with the button's name.
pub open spec fn spec_make_webhook(url: Option<String>, payload: Option<String>, b: Button) -> Result<
    Option<WebhookConfig>,
    ConfigError,
> {
    match (url, payload) {
        (Some(u), Some(p)) => Ok(Some(WebhookConfig { url: u, payload: p })),
        (None, None) => Ok(None),
        _ => Err(ConfigError::IncompleteWebhook(b)),
    }
}

/// Pair a button's optional webhook url and payload.
pub fn make_webhook(url: Option<String>, payload: Option<String>, b: Button) -> (r: Result<
    Option<WebhookConfig>,
    ConfigError,
>)
    ensures
        r == spec_make_webhook(url, payload, b),
{
    match (url, payload) {
        (Some(u), Some(p)) => Ok(Some(WebhookConfig { url: u, payload: p })),
        (None, None) => Ok(None),
        _ => Err(ConfigError::IncompleteWebhook(b)),
    }
}

/// The typed values of a `notification` subcommand invocation.
#[derive(Clone, Debug, PartialEq)]
pub struct NotificationArgs {
    pub title: String,
    pub description: String,
    pub icon: Option<String>,
    pub button_primary_text: Option<String>,
    pub button_primary_webhook_url: Option<String>,
    pub button_primary_webhook_payload: Option<String>,
    pub button_secondary_text: Option<String>,
    pub button_secondary_webhook_url: Option<String>,
    pub button_secondary_webhook_payload: Option<String>,
}

/// Resolution of a `notification` invocation: pair the primary webhook, then
/// the secondary one, then lock the window to the fixed template. No window
/// value appears anywhere in the result.
pub open spec fn spec_resolve_notification_cli(a: NotificationArgs) -> Result<
    Config,
    ConfigError,
> {
    match spec_make_webhook(
        a.button_primary_webhook_url,
        a.button_primary_webhook_payload,
        Button::Primary,
    ) {
        Err(e) => Err(e),
        Ok(pw) => match spec_make_webhook(
            a.button_secondary_webhook_url,
            a.button_secondary_webhook_payload,
            Button::Secondary,
        ) {
            Err(e) => Err(e),
            Ok(sw) => Ok(
                Config {
                    content: Content::Notification(
                        NotificationContent {
                            title: a.title,
                            description: a.description,
                            icon: a.icon,
                            button_primary_text: a.button_primary_text,
                            button_primary_webhook: pw,
                            button_secondary_text: a.button_secondary_text,
                            button_secondary_webhook: sw,
                        },
                    ),
                    window: spec_notification_template(),
                },
            ),
        },
    }
}

/// Resolve a `notification` subcommand invocation.
///
/// The window overrides are accepted so that a caller can pass whatever
/// flags were supplied, but the contract makes no use of them: a
/// notification window is the fixed template irrespective of any override.
pub fn resolve_notification_cli(a: NotificationArgs, overrides: &WindowOverrides) -> (r: Result<
    Config,
    ConfigError,
>)
    ensures
        r == spec_resolve_notification_cli(a),
{
    let pw = match make_webhook(
        a.button_primary_webhook_url,
        a.button_primary_webhook_payload,
        Button::Primary,
    ) {
        Err(e) => {
            return Err(e);
        },
        Ok(w) => w,
    };
    let sw = match make_webhook(
        a.button_secondary_webhook_url,
        a.button_secondary_webhook_payload,
        Button::Secondary,
    ) {
        Err(e) => {
            return Err(e);
        },
        Ok(w) => w,
    };
    Ok(
        Config {
            content: Content::Notification(
                NotificationContent {
                    title: a.title,
                    description: a.description,
                    icon: a.icon,
                    button_primary_text: a.button_primary_text,
                    button_primary_webhook: pw,
                    button_secondary_text: a.button_secondary_text,
                    button_secondary_webhook: sw,
                },
            ),
            window: WindowConfig::notification_template(),
        },
    )
}

/// Resolve a `custom` subcommand invocation: the url and optional window
/// title, with the supplied window flags merged over the defaults.
pub fn resolve_custom_cli(url: String, title: Option<String>, overrides: WindowOverrides) -> (r:
    Result<Config, ConfigError>)
    ensures
        r == spec_resolve_custom(
            (CustomConfig { url: url, title: title, window: Some(overrides) }),
        ),
{
    resolve_custom(CustomConfig { url, title, window: Some(overrides) })
}

} // verus!
