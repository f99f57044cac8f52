//! The window description: defaults, the notification template, and the
//! field-by-field merge of optional overrides over a base configuration.

use vstd::prelude::*;
use crate::strutil::str_eq;

verus! {

/// The style of the window's title bar.
///
/// Raw inputs carry the style as a string token; unknown tokens fall back to
/// [`TitleBarStyle::Overlay`] (a warning, never an error).
#[derive(Clone, Copy, Debug, PartialEq, Eq, Structural)]
pub enum TitleBarStyle {
    Overlay,
    Transparent,
    Visible,
}

/// A fully populated window description.
///
/// Dimensions are whole pixel counts; a resolved configuration always has
/// positive width and height.
#[derive(Clone, Copy, Debug, PartialEq, Eq, Structural)]
pub struct WindowConfig {
    pub width: u64,
    pub height: u64,
    pub resizable: bool,
    pub always_on_top: bool,
    pub skip_taskbar: bool,
    pub focus: bool,
    pub visible_on_all_workspaces: bool,
    pub closable: bool,
    pub minimizable: bool,
    pub hidden_title: bool,
    pub title_bar_style: TitleBarStyle,
}

/// The baseline window settings that every custom popup starts from.
pub open spec fn spec_default_window() -> WindowConfig {
    WindowConfig {
        width: 800,
        height: 600,
        resizable: false,
        always_on_top: true,
        skip_taskbar: true,
        focus: true,
        visible_on_all_workspaces: true,
        closable: false,
        minimizable: false,
        hidden_title: true,
        title_bar_style: TitleBarStyle::Overlay,
    }
}

/// The fixed window settings of a notification popup: notification windows
/// are presentation-locked, so every field here wins over file and CLI input.
pub open spec fn spec_notification_template() -> WindowConfig {
    WindowConfig {
        width: 500,
        height: 300,
        resizable: false,
        always_on_top: true,
        skip_taskbar: true,
        focus: true,
        visible_on_all_workspaces: true,
        closable: false,
        minimizable: false,
        hidden_title: true,
        title_bar_style: TitleBarStyle::Overlay,
    }
}

pub fn default_width() -> (r: u64)
    ensures
        r == spec_default_window().width,
{
    800
}

pub fn default_height() -> (r: u64)
    ensures
        r == spec_default_window().height,
{
    600
}

pub fn default_resizable() -> (r: bool)
    ensures
        r == spec_default_window().resizable,
{
    false
}

pub fn default_always_on_top() -> (r: bool)
    ensures
        r == spec_default_window().always_on_top,
{
    true
}

pub fn default_skip_taskbar() -> (r: bool)
    ensures
        r == spec_default_window().skip_taskbar,
{
    true
}

pub fn default_focus() -> (r: bool)
    ensures
        r == spec_default_window().focus,
{
    true
}

pub fn default_visible_on_all_workspaces() -> (r: bool)
    ensures
        r == spec_default_window().visible_on_all_workspaces,
{
    true
}

pub fn default_closable() -> (r: bool)
    ensures
        r == spec_default_window().closable,
{
    false
}

pub fn default_minimizable() -> (r: bool)
    ensures
        r == spec_default_window().minimizable,
{
    false
}

pub fn default_hidden_title() -> (r: bool)
    ensures
        r == spec_default_window().hidden_title,
{
    true
}

pub fn default_title_bar_style() -> (r: TitleBarStyle)
    ensures
        r == spec_default_window().title_bar_style,
{
    TitleBarStyle::Overlay
}

impl Default for WindowConfig {
    /// The baseline configuration of a custom popup.
    fn default() -> (r: WindowConfig)
        ensures
            r == spec_default_window(),
    {
        WindowConfig {
            width: default_width(),
            height: default_height(),
            resizable: default_resizable(),
            always_on_top: default_always_on_top(),
            skip_taskbar: default_skip_taskbar(),
            focus: default_focus(),
            visible_on_all_workspaces: default_visible_on_all_workspaces(),
            closable: default_closable(),
            minimizable: default_minimizable(),
            hidden_title: default_hidden_title(),
            title_bar_style: default_title_bar_style(),
        }
    }
}

/// Recognize one of the three title-bar tokens.
pub open spec fn spec_parse_title_bar_style(s: Seq<char>) -> Option<TitleBarStyle> {
    if s == "overlay"@ {
        Some(TitleBarStyle::Overlay)
    } else if s == "transparent"@ {
        Some(TitleBarStyle::Transparent)
    } else if s == "visible"@ {
        Some(TitleBarStyle::Visible)
    } else {
        None
    }
}

/// The sole non-fatal recovery of the pipeline: an unknown token falls back
/// to `Overlay`.
pub open spec fn spec_normalize_title_bar_style(s: Seq<char>) -> TitleBarStyle {
    match spec_parse_title_bar_style(s) {
        Some(t) => t,
        None => TitleBarStyle::Overlay,
    }
}

/// Recognize a title-bar token; `None` for an unknown one.
pub fn parse_title_bar_style(s: &str) -> (r: Option<TitleBarStyle>)
    ensures
        r == spec_parse_title_bar_style(s@),
{
    if str_eq(s, "overlay") {
        Some(TitleBarStyle::Overlay)
    } else if str_eq(s, "transparent") {
        Some(TitleBarStyle::Transparent)
    } else if str_eq(s, "visible") {
        Some(TitleBarStyle::Visible)
    } else {
        None
    }
}

/// The normalized style, and whether the token was recognized (`false` means
/// the caller may want to warn before continuing with the fallback).
pub fn normalize_title_bar_style(s: &str) -> (r: (TitleBarStyle, bool))
    ensures
        r.0 == spec_normalize_title_bar_style(s@),
        r.1 == (spec_parse_title_bar_style(s@) is Some),
{
    match parse_title_bar_style(s) {
        Some(t) => (t, true),
        None => (TitleBarStyle::Overlay, false),
    }
}

/// One optional value per window field; an absent value means "inherit the
/// base layer," never "set to a zero value."
#[derive(Clone, Debug, PartialEq)]
pub struct WindowOverrides {
    pub width: Option<u64>,
    pub height: Option<u64>,
    pub resizable: Option<bool>,
    pub always_on_top: Option<bool>,
    pub skip_taskbar: Option<bool>,
    pub focus: Option<bool>,
    pub visible_on_all_workspaces: Option<bool>,
    pub closable: Option<bool>,
    pub minimizable: Option<bool>,
    pub hidden_title: Option<bool>,
    pub title_bar_style: Option<String>,
}

/// The override set that leaves every field of the base untouched.
pub open spec fn spec_empty_overrides() -> WindowOverrides {
    WindowOverrides {
        width: None,
        height: None,
        resizable: None,
        always_on_top: None,
        skip_taskbar: None,
        focus: None,
        visible_on_all_workspaces: None,
        closable: None,
        minimizable: None,
        hidden_title: None,
        title_bar_style: None,
    }
}

/// One deterministic, field-independent pass: each field of the result is the
/// override where present, else the base's value. A supplied title-bar token
/// is normalized on the way in.
pub open spec fn spec_merge(base: WindowConfig, o: WindowOverrides) -> WindowConfig {
    WindowConfig {
        width: match o.width {
            Some(v) => v,
            None => base.width,
        },
        height: match o.height {
            Some(v) => v,
            None => base.height,
        },
        resizable: match o.resizable {
            Some(v) => v,
            None => base.resizable,
        },
        always_on_top: match o.always_on_top {
            Some(v) => v,
            None => base.always_on_top,
        },
        skip_taskbar: match o.skip_taskbar {
            Some(v) => v,
            None => base.skip_taskbar,
        },
        focus: match o.focus {
            Some(v) => v,
            None => base.focus,
        },
        visible_on_all_workspaces: match o.visible_on_all_workspaces {
            Some(v) => v,
            None => base.visible_on_all_workspaces,
        },
        closable: match o.closable {
            Some(v) => v,
            None => base.closable,
        },
        minimizable: match o.minimizable {
            Some(v) => v,
            None => base.minimizable,
        },
        hidden_title: match o.hidden_title {
            Some(v) => v,
            None => base.hidden_title,
        },
        title_bar_style: match o.title_bar_style {
            Some(s) => spec_normalize_title_bar_style(s@),
            None => base.title_bar_style,
        },
    }
}

impl WindowOverrides {
    /// No overrides at all.
    pub fn empty() -> (r: WindowOverrides)
        ensures
            r == spec_empty_overrides(),
    {
        WindowOverrides {
            width: None,
            height: None,
            resizable: None,
            always_on_top: None,
            skip_taskbar: None,
            focus: None,
            visible_on_all_workspaces: None,
            closable: None,
            minimizable: None,
            hidden_title: None,
            title_bar_style: None,
        }
    }
}

impl WindowConfig {
    /// The fixed template every notification popup is shown with.
    pub fn notification_template() -> (r: WindowConfig)
        ensures
            r == spec_notification_template(),
    {
        WindowConfig {
            width: 500,
            height: 300,
            resizable: false,
            always_on_top: true,
            skip_taskbar: true,
            focus: true,
            visible_on_all_workspaces: true,
            closable: false,
            minimizable: false,
            hidden_title: true,
            title_bar_style: TitleBarStyle::Overlay,
        }
    }

    /// Apply a set of optional overrides on top of `self`, "set wins over
    /// base," in a single pass.
    pub fn merge_overrides(self, o: &WindowOverrides) -> (r: WindowConfig)
        ensures
            r == spec_merge(self, *o),
    {
        let title_bar_style = match &o.title_bar_style {
            Some(s) => normalize_title_bar_style(s.as_str()).0,
            None => self.title_bar_style,
        };
        WindowConfig {
            width: match o.width {
                Some(v) => v,
                None => self.width,
            },
            height: match o.height {
                Some(v) => v,
                None => self.height,
            },
            resizable: match o.resizable {
                Some(v) => v,
                None => self.resizable,
            },
            always_on_top: match o.always_on_top {
                Some(v) => v,
                None => self.always_on_top,
            },
            skip_taskbar: match o.skip_taskbar {
                Some(v) => v,
                None => self.skip_taskbar,
            },
            focus: match o.focus {
                Some(v) => v,
                None => self.focus,
            },
            visible_on_all_workspaces: match o.visible_on_all_workspaces {
                Some(v) => v,
                None => self.visible_on_all_workspaces,
            },
            closable: match o.closable {
                Some(v) => v,
                None => self.closable,
            },
            minimizable: match o.minimizable {
                Some(v) => v,
                None => self.minimizable,
            },
            hidden_title: match o.hidden_title {
                Some(v) => v,
                None => self.hidden_title,
            },
            title_bar_style,
        }
    }
}

} // verus!
