//! The laws of resolution, stated over the specification functions the
//! executable contracts use, and proved from them.

use vstd::prelude::*;
use crate::config::{
    spec_has_allowed_scheme, spec_make_webhook, spec_notification_content,
    spec_resolve_custom, spec_resolve_notification_cli, spec_to_config, AppConfig, Config,
    Content, CustomConfig, CustomContent, NotificationArgs, NotificationConfig,
    NotificationContent, WebhookConfig,
};
use crate::errors::{Button, ConfigError};
use crate::strutil::is_prefix_of;
use crate::window::{
    spec_default_window, spec_empty_overrides, spec_merge, spec_notification_template,
    WindowConfig, WindowOverrides,
};
use crate::yaml::{spec_app_config_of_raw, RawDoc};

verus! {

/// Merging is field-wise: every field of the merged window equals the
/// override where one was supplied and the base's value where none was.
pub proof fn lemma_merge_field_wise(base: WindowConfig, o: WindowOverrides)
    ensures
        spec_merge(base, o).width == (match o.width {
            Some(v) => v,
            None => base.width,
        }),
        spec_merge(base, o).height == (match o.height {
            Some(v) => v,
            None => base.height,
        }),
        spec_merge(base, o).resizable == (match o.resizable {
            Some(v) => v,
            None => base.resizable,
        }),
        spec_merge(base, o).always_on_top == (match o.always_on_top {
            Some(v) => v,
            None => base.always_on_top,
        }),
        spec_merge(base, o).skip_taskbar == (match o.skip_taskbar {
            Some(v) => v,
            None => base.skip_taskbar,
        }),
        spec_merge(base, o).focus == (match o.focus {
            Some(v) => v,
            None => base.focus,
        }),
        spec_merge(base, o).visible_on_all_workspaces == (match o.visible_on_all_workspaces {
            Some(v) => v,
            None => base.visible_on_all_workspaces,
        }),
        spec_merge(base, o).closable == (match o.closable {
            Some(v) => v,
            None => base.closable,
        }),
        spec_merge(base, o).minimizable == (match o.minimizable {
            Some(v) => v,
            None => base.minimizable,
        }),
        spec_merge(base, o).hidden_title == (match o.hidden_title {
            Some(v) => v,
            None => base.hidden_title,
        }),
{
}

/// A valid custom request resolves to exactly the defaults with the
/// supplied overrides applied: the content carries the url and title
/// unchanged, and the window is the field-wise merge.
pub proof fn lemma_custom_window_is_merged_defaults(
    url: String,
    title: Option<String>,
    o: WindowOverrides,
)
    requires
        spec_has_allowed_scheme(url@),
        spec_merge(spec_default_window(), o).width > 0,
        spec_merge(spec_default_window(), o).height > 0,
    ensures
        spec_resolve_custom((CustomConfig { url: url, title: title, window: Some(o) }))
            == Ok::<Config, ConfigError>(
            (Config {
                content: Content::Custom((CustomContent { url: url, window_title: title })),
                window: spec_merge(spec_default_window(), o),
            }),
        ),
{
}

/// Every notification resolved from a document gets the fixed template
/// window, whatever window block or overrides came with it.
pub proof fn lemma_notification_window_is_template_file(a: AppConfig)
    ensures
        a.notification is Some ==> (spec_to_config(a) matches Ok(c) ==> c.window
            == spec_notification_template() && c.content is Notification),
{
}

/// Every notification resolved from command-line values gets the fixed
/// template window. `spec_resolve_notification_cli` takes no window values
/// at all, so the executable resolver's contract discards whatever
/// overrides were supplied alongside.
pub proof fn lemma_notification_window_is_template_cli(a: NotificationArgs)
    ensures
        spec_resolve_notification_cli(a) matches Ok(c) ==> c.window
            == spec_notification_template() && c.content is Notification,
{
}

/// Webhook pairing: a url without a payload, or a payload without a url,
/// is always refused with the button's name; both together always succeed
/// with exactly that pair; neither is no webhook at all.
pub proof fn lemma_webhook_pairing(url: Option<String>, payload: Option<String>, b: Button)
    ensures
        (url is Some) != (payload is Some) ==> spec_make_webhook(url, payload, b)
            == Err::<Option<WebhookConfig>, ConfigError>(ConfigError::IncompleteWebhook(b)),
        url matches Some(u) ==> (payload matches Some(p) ==> spec_make_webhook(url, payload, b)
            == Ok::<Option<WebhookConfig>, ConfigError>(
            Some((WebhookConfig { url: u, payload: p })),
        )),
        url is None && payload is None ==> spec_make_webhook(url, payload, b)
            == Ok::<Option<WebhookConfig>, ConfigError>(None),
{
}

/// An incomplete primary webhook fails the whole notification resolution
/// with `IncompleteWebhook(Primary)`; a complete primary and an incomplete
/// secondary fail it with `IncompleteWebhook(Secondary)`.
pub proof fn lemma_incomplete_webhook_fails_resolution(a: NotificationArgs)
    ensures
        (a.button_primary_webhook_url is Some) != (a.button_primary_webhook_payload is Some)
            ==> spec_resolve_notification_cli(a) == Err::<Config, ConfigError>(
            ConfigError::IncompleteWebhook(Button::Primary),
        ),
        ((a.button_primary_webhook_url is Some) == (a.button_primary_webhook_payload is Some)
            && (a.button_secondary_webhook_url is Some) != (a.button_secondary_webhook_payload
            is Some)) ==> spec_resolve_notification_cli(a) == Err::<Config, ConfigError>(
            ConfigError::IncompleteWebhook(Button::Secondary),
        ),
{
}

/// A custom url without one of the three accepted schemes is always refused
/// with `InvalidUrlScheme`; with one of them, resolution never raises that
/// error — it either succeeds or refuses the dimensions.
pub proof fn lemma_url_scheme(c: CustomConfig)
    ensures
        !spec_has_allowed_scheme(c.url@) ==> spec_resolve_custom(c) == Err::<Config, ConfigError>(
            ConfigError::InvalidUrlScheme(c.url),
        ),
        spec_has_allowed_scheme(c.url@) ==> (spec_resolve_custom(c) is Ok || spec_resolve_custom(
            c,
        ) == Err::<Config, ConfigError>(ConfigError::InvalidDimension)),
        is_prefix_of("http://"@, c.url@) ==> spec_has_allowed_scheme(c.url@),
        is_prefix_of("https://"@, c.url@) ==> spec_has_allowed_scheme(c.url@),
        is_prefix_of("file://"@, c.url@) ==> spec_has_allowed_scheme(c.url@),
{
}

/// Section selection: a document with neither section, or ambiguously with
/// both, is refused with `MissingSection` — at the raw stage and at the
/// typed stage alike.
pub proof fn lemma_section_selection(d: RawDoc, a: AppConfig)
    ensures
        d.notification is None && d.custom is None ==> spec_app_config_of_raw(d) == Err::<
            AppConfig,
            ConfigError,
        >(ConfigError::MissingSection),
        d.notification is Some && d.custom is Some ==> spec_app_config_of_raw(d) == Err::<
            AppConfig,
            ConfigError,
        >(ConfigError::MissingSection),
        a.notification is None && a.custom is None ==> spec_to_config(a) == Err::<
            Config,
            ConfigError,
        >(ConfigError::MissingSection),
        a.notification is Some && a.custom is Some ==> spec_to_config(a) == Err::<
            Config,
            ConfigError,
        >(ConfigError::MissingSection),
{
}

/// Round trip, custom: a document holding a `custom` section and a
/// command-line invocation carrying the same url, title and overrides
/// resolve to identical configurations. A missing window block acts as the
/// empty override set.
pub proof fn lemma_round_trip_custom(url: String, title: Option<String>, w: Option<WindowOverrides>)
    ensures
        spec_to_config(
            (AppConfig {
                notification: None,
                custom: Some((CustomConfig { url: url, title: title, window: w })),
            }),
        ) == spec_resolve_custom(
            (CustomConfig {
                url: url,
                title: title,
                window: Some(
                    match w {
                        Some(o) => o,
                        None => spec_empty_overrides(),
                    },
                ),
            }),
        ),
{
}

/// Round trip, notification: a document holding a `notification` section
/// and a command-line invocation carrying the same values resolve to
/// identical configurations.
pub proof fn lemma_round_trip_notification(n: NotificationConfig, a: NotificationArgs)
    requires
        a.title == n.title,
        a.description == n.description,
        a.icon == n.icon,
        a.button_primary_text == n.button_primary_text,
        a.button_secondary_text == n.button_secondary_text,
        spec_make_webhook(
            a.button_primary_webhook_url,
            a.button_primary_webhook_payload,
            Button::Primary,
        ) == Ok::<Option<WebhookConfig>, ConfigError>(n.button_primary_webhook),
        spec_make_webhook(
            a.button_secondary_webhook_url,
            a.button_secondary_webhook_payload,
            Button::Secondary,
        ) == Ok::<Option<WebhookConfig>, ConfigError>(n.button_secondary_webhook),
    ensures
        spec_resolve_notification_cli(a) == spec_to_config(
            (AppConfig { notification: Some(n), custom: None }),
        ),
{
    assert(spec_notification_content(n) == (NotificationContent {
        title: a.title,
        description: a.description,
        icon: a.icon,
        button_primary_text: a.button_primary_text,
        button_primary_webhook: n.button_primary_webhook,
        button_secondary_text: a.button_secondary_text,
        button_secondary_webhook: n.button_secondary_webhook,
    }));
}

} // verus!
