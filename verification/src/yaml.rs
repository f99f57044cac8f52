//! Reading a configuration document out of YAML text.
//!
//! serde_yaml parses the text into its `Value` tree; that tree is opaque
//! here, so a first pass copies what the schema reads out of it into the
//! plain [`RawDoc`] shape through small trusted accessors. Everything after
//! that — which fields are required, how webhooks pair up, how the document
//! resolves — is verified code over plain values.
//!
//! Each outside call is deterministic, a function of its arguments alone,
//! so its result carries a name (`yaml_doc_of`, `yaml_lookup`, ...); the
//! accessor contracts speak over those names, and the extraction is proved
//! to equal a spec-level mirror of itself. That way [`parse_raw_doc`] and
//! [`config_from_yaml_str`] can state exactly what they return for every
//! text: the resolution of the parsed document, or a parse error where no
//! document parses.

use vstd::prelude::*;
use crate::config::{
    spec_config_wf, spec_to_config, AppConfig, Config, CustomConfig, NotificationConfig,
    WebhookConfig,
};
use crate::errors::{Button, ConfigError, ConfigField};
use crate::window::WindowOverrides;

verus! {

#[verifier::external_type_specification]
#[verifier::external_body]
pub struct ExYamlValue(serde_yaml::Value);

#[verifier::external_type_specification]
#[verifier::external_body]
pub struct ExYamlError(serde_yaml::Error);

// The value tree serde_yaml::from_str parses the text into, where the text
// is valid YAML; `None` where it is not. Parsing depends on the text alone.
pub uninterp spec fn yaml_doc_of(text: Seq<char>) -> Option<serde_yaml::Value>;

// What serde_yaml::Value::get returns for a mapping and a key: the entry's
// value, or `None` where the value is no mapping or the key is absent.
pub uninterp spec fn yaml_lookup(v: serde_yaml::Value, key: Seq<char>) -> Option<
    serde_yaml::Value,
>;

// The string carried by a string value per serde_yaml::Value::as_str;
// `None` for any other kind of value.
pub uninterp spec fn yaml_str_of(v: serde_yaml::Value) -> Option<String>;

// The number carried by a value per serde_yaml::Value::as_u64: `Some` only
// for a whole number representable as u64.
pub uninterp spec fn yaml_u64_of(v: serde_yaml::Value) -> Option<u64>;

// The boolean carried by a boolean value per serde_yaml::Value::as_bool;
// `None` for any other kind of value.
pub uninterp spec fn yaml_bool_of(v: serde_yaml::Value) -> Option<bool>;

/// Relies on serde_yaml::from_str: parses YAML text into a value tree,
/// deterministically in the text; malformed text gives `Err`.
#[verifier::external_body]
fn parse_yaml_value(text: &str) -> (r: Result<serde_yaml::Value, serde_yaml::Error>)
    ensures
        r matches Ok(v) ==> yaml_doc_of(text@) == Some(v),
        r is Err ==> yaml_doc_of(text@) is None,
{
    serde_yaml::from_str(text)
}

/// Relies on serde_yaml::Error's Display impl: renders the parse error.
#[verifier::external_body]
fn yaml_error_message(e: &serde_yaml::Error) -> (r: String) {
    format!("{}", e)
}

/// Relies on serde_yaml::Value::get: looks a key up in a mapping, `None`
/// when the value is no mapping or the key is absent; a function of the
/// value and the key alone.
#[verifier::external_body]
fn yaml_get<'a>(v: &'a serde_yaml::Value, key: &str) -> (r: Option<&'a serde_yaml::Value>)
    ensures
        (match r {
            Some(f) => yaml_lookup(*v, key@) == Some(*f),
            None => yaml_lookup(*v, key@) is None,
        }),
{
    v.get(key)
}

/// Relies on serde_yaml::Value::as_str: the string carried by a string
/// value, `None` for any other kind of value; a function of the value
/// alone.
#[verifier::external_body]
fn yaml_as_str(v: &serde_yaml::Value) -> (r: Option<String>)
    ensures
        r == yaml_str_of(*v),
{
    v.as_str().map(str::to_owned)
}

/// Relies on serde_yaml::Value::as_u64: the number carried by a value, if
/// it is a number representable as u64; `None` otherwise — in particular
/// for fractional and negative numbers; a function of the value alone.
#[verifier::external_body]
fn yaml_as_u64(v: &serde_yaml::Value) -> (r: Option<u64>)
    ensures
        r == yaml_u64_of(*v),
{
    v.as_u64()
}

/// Relies on serde_yaml::Value::as_bool: the boolean carried by a boolean
/// value, `None` for any other kind of value; a function of the value
/// alone.
#[verifier::external_body]
fn yaml_as_bool(v: &serde_yaml::Value) -> (r: Option<bool>)
    ensures
        r == yaml_bool_of(*v),
{
    v.as_bool()
}

/// A numeric field as it stood in the document: absent, present but not a
/// whole non-negative number, or its value.
#[derive(Clone, Copy, Debug, PartialEq, Eq, Structural)]
pub enum RawNum {
    Missing,
    Invalid,
    Given(u64),
}

/// A webhook mapping as it stood in the document; either half may be
/// missing, which resolution then refuses.
#[derive(Clone, Debug, PartialEq)]
pub struct RawWebhook {
    pub url: Option<String>,
    pub payload: Option<String>,
}

/// A `notification` section as it stood in the document, before the
/// required fields are checked.
#[derive(Clone, Debug, PartialEq)]
pub struct RawNotification {
    pub title: Option<String>,
    pub description: Option<String>,
    pub icon: Option<String>,
    pub button_primary_text: Option<String>,
    pub button_primary_webhook: Option<RawWebhook>,
    pub button_secondary_text: Option<String>,
    pub button_secondary_webhook: Option<RawWebhook>,
}

/// A `window` block as it stood in the document.
#[derive(Clone, Debug, PartialEq)]
pub struct RawWindow {
    pub width: RawNum,
    pub height: RawNum,
    pub resizable: Option<bool>,
    pub always_on_top: Option<bool>,
    pub skip_taskbar: Option<bool>,
    pub focus: Option<bool>,
    pub visible_on_all_workspaces: Option<bool>,
    pub closable: Option<bool>,
    pub minimizable: Option<bool>,
    pub hidden_title: Option<bool>,
    pub title_bar_style: Option<String>,
}

/// A `custom` section as it stood in the document.
#[derive(Clone, Debug, PartialEq)]
pub struct RawCustom {
    pub url: Option<String>,
    pub title: Option<String>,
    pub window: Option<RawWindow>,
}

/// A whole document as it stood in the YAML: each top-level section present
/// or not, nothing checked yet.
#[derive(Clone, Debug, PartialEq)]
pub struct RawDoc {
    pub notification: Option<RawNotification>,
    pub custom: Option<RawCustom>,
}

/// A button's webhook: an absent mapping is no webhook, a mapping with both
/// halves is a complete one, and anything else is refused with the button's
/// name.
pub open spec fn spec_webhook_of_raw(w: Option<RawWebhook>, b: Button) -> Result<
    Option<WebhookConfig>,
    ConfigError,
> {
    match w {
        None => Ok(None),
        Some(rw) => match (rw.url, rw.payload) {
            (Some(u), Some(p)) => Ok(Some(WebhookConfig { url: u, payload: p })),
            _ => Err(ConfigError::IncompleteWebhook(b)),
        },
    }
}

/// The checks a `notification` section must pass, fail-fast: title, then
/// description, then the primary webhook, then the secondary one.
pub open spec fn spec_notification_of_raw(rn: RawNotification) -> Result<
    NotificationConfig,
    ConfigError,
> {
    match rn.title {
        None => Err(ConfigError::MissingField(ConfigField::Title)),
        Some(t) => match rn.description {
            None => Err(ConfigError::MissingField(ConfigField::Description)),
            Some(d) => match spec_webhook_of_raw(rn.button_primary_webhook, Button::Primary) {
                Err(e) => Err(e),
                Ok(pw) => match spec_webhook_of_raw(
                    rn.button_secondary_webhook,
                    Button::Secondary,
                ) {
                    Err(e) => Err(e),
                    Ok(sw) => Ok(
                        NotificationConfig {
                            title: t,
                            description: d,
                            icon: rn.icon,
                            button_primary_text: rn.button_primary_text,
                            button_primary_webhook: pw,
                            button_secondary_text: rn.button_secondary_text,
                            button_secondary_webhook: sw,
                        },
                    ),
                },
            },
        },
    }
}

/// A present numeric field as an override; an absent one as none.
pub open spec fn spec_num_opt(n: RawNum) -> Option<u64> {
    match n {
        RawNum::Given(v) => Some(v),
        _ => None,
    }
}

/// A `window` block as an override set. A width or height that is present
/// but no whole non-negative number is refused outright.
pub open spec fn spec_overrides_of_raw_window(rw: RawWindow) -> Result<
    WindowOverrides,
    ConfigError,
> {
    if rw.width is Invalid || rw.height is Invalid {
        Err(ConfigError::InvalidDimension)
    } else {
        Ok(
            WindowOverrides {
                width: spec_num_opt(rw.width),
                height: spec_num_opt(rw.height),
                resizable: rw.resizable,
                always_on_top: rw.always_on_top,
                skip_taskbar: rw.skip_taskbar,
                focus: rw.focus,
                visible_on_all_workspaces: rw.visible_on_all_workspaces,
                closable: rw.closable,
                minimizable: rw.minimizable,
                hidden_title: rw.hidden_title,
                title_bar_style: rw.title_bar_style,
            },
        )
    }
}

/// The checks a `custom` section must pass: the url is required, and a
/// window block must carry acceptable numbers.
pub open spec fn spec_custom_of_raw(rc: RawCustom) -> Result<CustomConfig, ConfigError> {
    match rc.url {
        None => Err(ConfigError::MissingField(ConfigField::Url)),
        Some(u) => match rc.window {
            None => Ok(CustomConfig { url: u, title: rc.title, window: None }),
            Some(rw) => match spec_overrides_of_raw_window(rw) {
                Err(e) => Err(e),
                Ok(o) => Ok(CustomConfig { url: u, title: rc.title, window: Some(o) }),
            },
        },
    }
}

/// A document must hold exactly one of the two sections; then that
/// section's own checks run.
pub open spec fn spec_app_config_of_raw(d: RawDoc) -> Result<AppConfig, ConfigError> {
    match (d.notification, d.custom) {
        (None, None) => Err(ConfigError::MissingSection),
        (Some(_), Some(_)) => Err(ConfigError::MissingSection),
        (Some(rn), None) => match spec_notification_of_raw(rn) {
            Err(e) => Err(e),
            Ok(n) => Ok(AppConfig { notification: Some(n), custom: None }),
        },
        (None, Some(rc)) => match spec_custom_of_raw(rc) {
            Err(e) => Err(e),
            Ok(c) => Ok(AppConfig { notification: None, custom: Some(c) }),
        },
    }
}

/// Check a raw webhook mapping of the named button.
pub fn webhook_of_raw(w: Option<RawWebhook>, b: Button) -> (r: Result<
    Option<WebhookConfig>,
    ConfigError,
>)
    ensures
        r == spec_webhook_of_raw(w, b),
{
    match w {
        None => Ok(None),
        Some(rw) => match (rw.url, rw.payload) {
            (Some(u), Some(p)) => Ok(Some(WebhookConfig { url: u, payload: p })),
            _ => Err(ConfigError::IncompleteWebhook(b)),
        },
    }
}

/// Check the required fields and webhooks of a raw `notification` section.
pub fn notification_of_raw(rn: RawNotification) -> (r: Result<NotificationConfig, ConfigError>)
    ensures
        r == spec_notification_of_raw(rn),
{
    let t = match rn.title {
        None => {
            return Err(ConfigError::MissingField(ConfigField::Title));
        },
        Some(t) => t,
    };
    let d = match rn.description {
        None => {
            return Err(ConfigError::MissingField(ConfigField::Description));
        },
        Some(d) => d,
    };
    let pw = match webhook_of_raw(rn.button_primary_webhook, Button::Primary) {
        Err(e) => {
            return Err(e);
        },
        Ok(w) => w,
    };
    let sw = match webhook_of_raw(rn.button_secondary_webhook, Button::Secondary) {
        Err(e) => {
            return Err(e);
        },
        Ok(w) => w,
    };
    Ok(
        NotificationConfig {
            title: t,
            description: d,
            icon: rn.icon,
            button_primary_text: rn.button_primary_text,
            button_primary_webhook: pw,
            button_secondary_text: rn.button_secondary_text,
            button_secondary_webhook: sw,
        },
    )
}

/// Turn a raw `window` block into an override set.
pub fn overrides_of_raw_window(rw: RawWindow) -> (r: Result<WindowOverrides, ConfigError>)
    ensures
        r == spec_overrides_of_raw_window(rw),
{
    let width = match rw.width {
        RawNum::Missing => None,
        RawNum::Invalid => {
            return Err(ConfigError::InvalidDimension);
        },
        RawNum::Given(v) => Some(v),
    };
    let height = match rw.height {
        RawNum::Missing => None,
        RawNum::Invalid => {
            return Err(ConfigError::InvalidDimension);
        },
        RawNum::Given(v) => Some(v),
    };
    Ok(
        WindowOverrides {
            width,
            height,
            resizable: rw.resizable,
            always_on_top: rw.always_on_top,
            skip_taskbar: rw.skip_taskbar,
            focus: rw.focus,
            visible_on_all_workspaces: rw.visible_on_all_workspaces,
            closable: rw.closable,
            minimizable: rw.minimizable,
            hidden_title: rw.hidden_title,
            title_bar_style: rw.title_bar_style,
        },
    )
}

/// Check the required fields of a raw `custom` section.
pub fn custom_of_raw(rc: RawCustom) -> (r: Result<CustomConfig, ConfigError>)
    ensures
        r == spec_custom_of_raw(rc),
{
    let u = match rc.url {
        None => {
            return Err(ConfigError::MissingField(ConfigField::Url));
        },
        Some(u) => u,
    };
    match rc.window {
        None => Ok(CustomConfig { url: u, title: rc.title, window: None }),
        Some(rw) => match overrides_of_raw_window(rw) {
            Err(e) => Err(e),
            Ok(o) => Ok(CustomConfig { url: u, title: rc.title, window: Some(o) }),
        },
    }
}

/// Map a raw document to a typed one: section arity first, then the chosen
/// section's own checks.
pub fn app_config_of_raw(d: RawDoc) -> (r: Result<AppConfig, ConfigError>)
    ensures
        r == spec_app_config_of_raw(d),
{
    match (d.notification, d.custom) {
        (None, None) => Err(ConfigError::MissingSection),
        (Some(_), Some(_)) => Err(ConfigError::MissingSection),
        (Some(rn), None) => match notification_of_raw(rn) {
            Err(e) => Err(e),
            Ok(n) => Ok(AppConfig { notification: Some(n), custom: None }),
        },
        (None, Some(rc)) => match custom_of_raw(rc) {
            Err(e) => Err(e),
            Ok(c) => Ok(AppConfig { notification: None, custom: Some(c) }),
        },
    }
}

/// An optional string field of a mapping, over the named accessor results;
/// a wrongly-typed value reads as absent.
pub open spec fn spec_str_field(v: serde_yaml::Value, key: Seq<char>) -> Option<String> {
    match yaml_lookup(v, key) {
        None => None,
        Some(f) => yaml_str_of(f),
    }
}

/// An optional boolean field of a mapping; a wrongly-typed value reads as
/// absent.
pub open spec fn spec_bool_field(v: serde_yaml::Value, key: Seq<char>) -> Option<bool> {
    match yaml_lookup(v, key) {
        None => None,
        Some(f) => yaml_bool_of(f),
    }
}

/// A numeric field of a mapping, keeping apart "absent" and "present but
/// no acceptable number".
pub open spec fn spec_num_field(v: serde_yaml::Value, key: Seq<char>) -> RawNum {
    match yaml_lookup(v, key) {
        None => RawNum::Missing,
        Some(f) => match yaml_u64_of(f) {
            None => RawNum::Invalid,
            Some(n) => RawNum::Given(n),
        },
    }
}

/// A button's webhook mapping as the document holds it.
pub open spec fn spec_raw_webhook(v: serde_yaml::Value, key: Seq<char>) -> Option<RawWebhook> {
    match yaml_lookup(v, key) {
        None => None,
        Some(w) => Some(
            RawWebhook { url: spec_str_field(w, "url"@), payload: spec_str_field(w, "payload"@) },
        ),
    }
}

/// A `notification` section as the document holds it.
pub open spec fn spec_raw_notification(v: serde_yaml::Value) -> RawNotification {
    RawNotification {
        title: spec_str_field(v, "title"@),
        description: spec_str_field(v, "description"@),
        icon: spec_str_field(v, "icon"@),
        button_primary_text: spec_str_field(v, "button_primary_text"@),
        button_primary_webhook: spec_raw_webhook(v, "button_primary_webhook"@),
        button_secondary_text: spec_str_field(v, "button_secondary_text"@),
        button_secondary_webhook: spec_raw_webhook(v, "button_secondary_webhook"@),
    }
}

/// A `window` block as the document holds it.
pub open spec fn spec_raw_window(v: serde_yaml::Value) -> RawWindow {
    RawWindow {
        width: spec_num_field(v, "width"@),
        height: spec_num_field(v, "height"@),
        resizable: spec_bool_field(v, "resizable"@),
        always_on_top: spec_bool_field(v, "always_on_top"@),
        skip_taskbar: spec_bool_field(v, "skip_taskbar"@),
        focus: spec_bool_field(v, "focus"@),
        visible_on_all_workspaces: spec_bool_field(v, "visible_on_all_workspaces"@),
        closable: spec_bool_field(v, "closable"@),
        minimizable: spec_bool_field(v, "minimizable"@),
        hidden_title: spec_bool_field(v, "hidden_title"@),
        title_bar_style: spec_str_field(v, "title_bar_style"@),
    }
}

/// A `custom` section as the document holds it.
pub open spec fn spec_raw_custom(v: serde_yaml::Value) -> RawCustom {
    RawCustom {
        url: spec_str_field(v, "url"@),
        title: spec_str_field(v, "title"@),
        window: match yaml_lookup(v, "window"@) {
            None => None,
            Some(w) => Some(spec_raw_window(w)),
        },
    }
}

/// A whole document as its value tree holds it: each top-level section
/// present or not.
pub open spec fn spec_raw_doc(v: serde_yaml::Value) -> RawDoc {
    RawDoc {
        notification: match yaml_lookup(v, "notification"@) {
            None => None,
            Some(n) => Some(spec_raw_notification(n)),
        },
        custom: match yaml_lookup(v, "custom"@) {
            None => None,
            Some(c) => Some(spec_raw_custom(c)),
        },
    }
}

/// Copy an optional string field out of a mapping.
fn extract_str_field(v: &serde_yaml::Value, key: &str) -> (r: Option<String>)
    ensures
        r == spec_str_field(*v, key@),
{
    match yaml_get(v, key) {
        None => None,
        Some(f) => yaml_as_str(f),
    }
}

/// Copy an optional boolean field out of a mapping.
fn extract_bool_field(v: &serde_yaml::Value, key: &str) -> (r: Option<bool>)
    ensures
        r == spec_bool_field(*v, key@),
{
    match yaml_get(v, key) {
        None => None,
        Some(f) => yaml_as_bool(f),
    }
}

/// Copy a numeric field out of a mapping.
fn extract_num_field(v: &serde_yaml::Value, key: &str) -> (r: RawNum)
    ensures
        r == spec_num_field(*v, key@),
{
    match yaml_get(v, key) {
        None => RawNum::Missing,
        Some(f) => match yaml_as_u64(f) {
            None => RawNum::Invalid,
            Some(n) => RawNum::Given(n),
        },
    }
}

/// Copy a webhook mapping out of a button field.
fn extract_raw_webhook(v: &serde_yaml::Value, key: &str) -> (r: Option<RawWebhook>)
    ensures
        r == spec_raw_webhook(*v, key@),
{
    match yaml_get(v, key) {
        None => None,
        Some(w) => Some(
            RawWebhook { url: extract_str_field(w, "url"), payload: extract_str_field(w, "payload") },
        ),
    }
}

/// Copy a `notification` section out of the document tree.
fn extract_raw_notification(v: &serde_yaml::Value) -> (r: RawNotification)
    ensures
        r == spec_raw_notification(*v),
{
    RawNotification {
        title: extract_str_field(v, "title"),
        description: extract_str_field(v, "description"),
        icon: extract_str_field(v, "icon"),
        button_primary_text: extract_str_field(v, "button_primary_text"),
        button_primary_webhook: extract_raw_webhook(v, "button_primary_webhook"),
        button_secondary_text: extract_str_field(v, "button_secondary_text"),
        button_secondary_webhook: extract_raw_webhook(v, "button_secondary_webhook"),
    }
}

/// Copy a `window` block out of a `custom` section.
fn extract_raw_window(v: &serde_yaml::Value) -> (r: RawWindow)
    ensures
        r == spec_raw_window(*v),
{
    RawWindow {
        width: extract_num_field(v, "width"),
        height: extract_num_field(v, "height"),
        resizable: extract_bool_field(v, "resizable"),
        always_on_top: extract_bool_field(v, "always_on_top"),
        skip_taskbar: extract_bool_field(v, "skip_taskbar"),
        focus: extract_bool_field(v, "focus"),
        visible_on_all_workspaces: extract_bool_field(v, "visible_on_all_workspaces"),
        closable: extract_bool_field(v, "closable"),
        minimizable: extract_bool_field(v, "minimizable"),
        hidden_title: extract_bool_field(v, "hidden_title"),
        title_bar_style: extract_str_field(v, "title_bar_style"),
    }
}

/// Copy a `custom` section out of the document tree.
fn extract_raw_custom(v: &serde_yaml::Value) -> (r: RawCustom)
    ensures
        r == spec_raw_custom(*v),
{
    RawCustom {
        url: extract_str_field(v, "url"),
        title: extract_str_field(v, "title"),
        window: match yaml_get(v, "window") {
            None => None,
            Some(w) => Some(extract_raw_window(w)),
        },
    }
}

/// Parse YAML text and copy the two top-level sections out of it: exactly
/// the raw shape of the parsed document, or the parser's message where the
/// text is no valid YAML.
pub fn parse_raw_doc(text: &str) -> (r: Result<RawDoc, ConfigError>)
    ensures
        yaml_doc_of(text@) matches Some(v) ==> r == Ok::<RawDoc, ConfigError>(spec_raw_doc(v)),
        yaml_doc_of(text@) is None ==> (r matches Err(e) && e is ParseError),
{
    let v = match parse_yaml_value(text) {
        Err(e) => {
            return Err(ConfigError::ParseError(yaml_error_message(&e)));
        },
        Ok(v) => v,
    };
    let notification = match yaml_get(&v, "notification") {
        None => None,
        Some(n) => Some(extract_raw_notification(n)),
    };
    let custom = match yaml_get(&v, "custom") {
        None => None,
        Some(c) => Some(extract_raw_custom(c)),
    };
    Ok(RawDoc { notification, custom })
}

/// Full resolution of a raw document: the raw-to-typed mapping, then
/// [`spec_to_config`]; the first error wins.
pub open spec fn spec_resolve_raw_doc(d: RawDoc) -> Result<Config, ConfigError> {
    match spec_app_config_of_raw(d) {
        Err(e) => Err(e),
        Ok(a) => spec_to_config(a),
    }
}

/// Resolve a configuration from YAML text: parse, map the raw document, and
/// run full resolution. The result is exactly the resolution of the parsed
/// document — or a parse error where no document parses — and a returned
/// configuration is well-formed.
pub fn config_from_yaml_str(text: &str) -> (r: Result<Config, ConfigError>)
    ensures
        yaml_doc_of(text@) matches Some(v) ==> r == spec_resolve_raw_doc(spec_raw_doc(v)),
        yaml_doc_of(text@) is None ==> (r matches Err(e) && e is ParseError),
        r matches Ok(c) ==> spec_config_wf(c),
{
    let raw = match parse_raw_doc(text) {
        Err(e) => {
            return Err(e);
        },
        Ok(d) => d,
    };
    let app = match app_config_of_raw(raw) {
        Err(e) => {
            return Err(e);
        },
        Ok(a) => a,
    };
    proof {
        crate::config::lemma_resolved_config_wf(app);
    }
    app.to_config()
}

} // verus!
