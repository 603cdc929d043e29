//! The notification request a call determines, and the function that
//! builds it from the recognized flags.

use vstd::prelude::*;

use crate::call::CallRecord;
use crate::call::Flag;
use crate::call::FlagView;
use crate::call::load_duration;
use crate::call::load_string;
use crate::call::spec_flag_duration;
use crate::call::spec_flag_string;
use crate::call::spec_flag_value;

verus! {

/// The icon of a notification: an explicit filesystem path, or the
/// fallback policy of detecting an icon automatically.
pub enum IconChoice {
    Auto,
    Path(String),
}

/// The mathematical model of an icon choice.
pub enum IconView {
    Auto,
    Path(Seq<char>),
}

impl View for IconChoice {
    type V = IconView;

    open spec fn view(&self) -> IconView {
        match self {
            IconChoice::Auto => IconView::Auto,
            IconChoice::Path(p) => IconView::Path(p@),
        }
    }
}

/// What one invocation asks the OS notification subsystem to display.
/// An optional field left unset is left to the subsystem's default; the
/// icon always carries an explicit choice, automatic detection when no
/// path was supplied; the timeout is a nanosecond count, or unset to
/// leave the system default in effect.
pub struct NotificationRequest {
    pub summary: Option<String>,
    pub body: Option<String>,
    pub subtitle: Option<String>,
    pub app_name: Option<String>,
    pub icon: IconChoice,
    pub timeout_nanos: Option<u64>,
}

/// The mathematical model of a notification request.
pub struct RequestView {
    pub summary: Option<Seq<char>>,
    pub body: Option<Seq<char>>,
    pub subtitle: Option<Seq<char>>,
    pub app_name: Option<Seq<char>>,
    pub icon: IconView,
    pub timeout_nanos: Option<u64>,
}

/// The view of an optional text field.
pub open spec fn view_text(o: Option<String>) -> Option<Seq<char>> {
    match o {
        Some(s) => Some(s@),
        None => None,
    }
}

impl View for NotificationRequest {
    type V = RequestView;

    open spec fn view(&self) -> RequestView {
        RequestView {
            summary: view_text(self.summary),
            body: view_text(self.body),
            subtitle: view_text(self.subtitle),
            app_name: view_text(self.app_name),
            icon: self.icon@,
            timeout_nanos: self.timeout_nanos,
        }
    }
}

/// The icon a call determines: the path supplied as text with the icon
/// flag, and automatic detection when that flag is absent or of another
/// kind — a deliberate fallback, not an unset field.
pub open spec fn spec_icon(flags: Seq<Flag>) -> IconView {
    match spec_flag_string(flags, "icon"@) {
        Some(p) => IconView::Path(p),
        None => IconView::Auto,
    }
}

/// The display duration a call determines: the timeout flag's nanosecond
/// count when that flag is present, of duration kind, and representable
/// (non-negative); in every other case nothing, leaving the system
/// default in effect.
pub open spec fn spec_timeout_nanos(flags: Seq<Flag>) -> Option<u64> {
    match spec_flag_duration(flags, "timeout"@) {
        Some(n) => if 0 <= n {
            Some(n as u64)
        } else {
            None
        },
        None => None,
    }
}

/// The request that a call determines, field by field.
pub open spec fn spec_build_request(flags: Seq<Flag>) -> RequestView {
    RequestView {
        summary: spec_flag_string(flags, "summary"@),
        body: spec_flag_string(flags, "body"@),
        subtitle: spec_flag_string(flags, "subtitle"@),
        app_name: spec_flag_string(flags, "app-name"@),
        icon: spec_icon(flags),
        timeout_nanos: spec_timeout_nanos(flags),
    }
}

/// Reads the timeout flag as the request's display duration.
pub fn load_timeout(call: &CallRecord) -> (r: Option<u64>)
    ensures
        r == spec_timeout_nanos(call.flags@),
{
    match load_duration(call, "timeout") {
        Some(n) => if n >= 0 {
            Some(n as u64)
        } else {
            None
        },
        None => None,
    }
}

/// Builds the notification request for one call: each textual field from
/// its flag, the icon with its automatic-detection fallback, and the
/// timeout under the representability policy of `spec_timeout_nanos`.
pub fn build_request(call: &CallRecord) -> (r: NotificationRequest)
    ensures
        r@ == spec_build_request(call.flags@),
{
    let summary = load_string(call, "summary");
    let body = load_string(call, "body");
    let subtitle = load_string(call, "subtitle");
    let app_name = load_string(call, "app-name");
    let icon = match load_string(call, "icon") {
        Some(path) => IconChoice::Path(path),
        None => IconChoice::Auto,
    };
    let timeout_nanos = load_timeout(call);
    NotificationRequest { summary, body, subtitle, app_name, icon, timeout_nanos }
}

/// A call with no flags at all determines the default request: icon set
/// to automatic detection and every other field left unset.
pub proof fn lemma_no_flags_all_defaults(flags: Seq<Flag>)
    requires
        flags.len() == 0,
    ensures
        spec_build_request(flags).summary is None,
        spec_build_request(flags).body is None,
        spec_build_request(flags).subtitle is None,
        spec_build_request(flags).app_name is None,
        spec_build_request(flags).icon == IconView::Auto,
        spec_build_request(flags).timeout_nanos is None,
{
}

/// A summary flag supplied as text sets the request's summary to exactly
/// that text.
pub proof fn lemma_summary_text(flags: Seq<Flag>, x: Seq<char>)
    requires
        spec_flag_value(flags, "summary"@) == Some(FlagView::Text(x)),
    ensures
        spec_build_request(flags).summary == Some(x),
{
}

/// A summary flag that is absent, or supplied as a value of any other
/// kind, leaves the request's summary unset: the two cases are
/// indistinguishable in the request.
pub proof fn lemma_summary_not_text(flags: Seq<Flag>)
    requires
        !(spec_flag_value(flags, "summary"@) matches Some(FlagView::Text(_))),
    ensures
        spec_build_request(flags).summary is None,
{
}

/// A timeout flag supplied as a representable duration sets a finite
/// display duration of exactly that many nanoseconds.
pub proof fn lemma_timeout_duration(flags: Seq<Flag>, n: i64)
    requires
        spec_flag_value(flags, "timeout"@) == Some(FlagView::Duration(n)),
        0 <= n,
    ensures
        spec_build_request(flags).timeout_nanos == Some(n as u64),
{
}

/// A timeout flag that is absent behaves identically to one supplied as
/// a value of any kind but duration: both leave the system default in
/// effect.
pub proof fn lemma_timeout_absent_or_mismatched(flags: Seq<Flag>)
    requires
        !(spec_flag_value(flags, "timeout"@) matches Some(FlagView::Duration(_))),
    ensures
        spec_build_request(flags).timeout_nanos is None,
{
}

} // verus!
