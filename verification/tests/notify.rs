use desktop_notify::call::CallRecord;
use desktop_notify::call::Flag;
use desktop_notify::call::FlagValue;
use desktop_notify::call::SourceSpan;
use desktop_notify::call::load_duration;
use desktop_notify::call::load_string;
use desktop_notify::command::FlagShape;
use desktop_notify::command::command_signature;
use desktop_notify::dispatch::notify_result;
use desktop_notify::request::IconChoice;
use desktop_notify::request::build_request;
use desktop_notify::request::load_timeout;

fn span() -> SourceSpan {
    SourceSpan { start: 11, end: 17 }
}

fn call_with(flags: Vec<Flag>) -> CallRecord {
    CallRecord { flags, head: span() }
}

fn text_flag(name: &str, val: &str) -> Flag {
    Flag { name: name.to_string(), value: FlagValue::Text(val.to_string()) }
}

fn duration_flag(name: &str, nanos: i64) -> Flag {
    Flag { name: name.to_string(), value: FlagValue::Duration(nanos) }
}

#[test]
fn empty_call_builds_default_request() {
    let call = call_with(vec![]);
    let request = build_request(&call);
    assert_eq!(request.summary, None);
    assert_eq!(request.body, None);
    assert_eq!(request.subtitle, None);
    assert_eq!(request.app_name, None);
    assert!(matches!(request.icon, IconChoice::Auto));
    assert_eq!(request.timeout_nanos, None);
}

#[test]
fn summary_text_sets_summary() {
    let call = call_with(vec![text_flag("summary", "X")]);
    let request = build_request(&call);
    assert_eq!(request.summary, Some("X".to_string()));
    assert_eq!(load_string(&call, "summary"), Some("X".to_string()));
}

#[test]
fn summary_of_wrong_kind_is_like_omission() {
    let as_duration = call_with(vec![duration_flag("summary", 5)]);
    assert_eq!(load_string(&as_duration, "summary"), None);
    assert_eq!(build_request(&as_duration).summary, None);

    let as_other = call_with(vec![Flag {
        name: "summary".to_string(),
        value: FlagValue::Other,
    }]);
    assert_eq!(load_string(&as_other, "summary"), None);
    assert_eq!(build_request(&as_other).summary, None);
}

#[test]
fn body_subtitle_and_app_name_are_extracted() {
    let call = call_with(vec![
        text_flag("body", "b"),
        text_flag("subtitle", "sub"),
        text_flag("app-name", "app"),
    ]);
    let request = build_request(&call);
    assert_eq!(request.body, Some("b".to_string()));
    assert_eq!(request.subtitle, Some("sub".to_string()));
    assert_eq!(request.app_name, Some("app".to_string()));
    assert!(matches!(request.icon, IconChoice::Auto));
}

#[test]
fn icon_path_is_kept() {
    let call = call_with(vec![text_flag("icon", "/tmp/icon.png")]);
    let request = build_request(&call);
    match request.icon {
        IconChoice::Path(p) => assert_eq!(p, "/tmp/icon.png"),
        IconChoice::Auto => panic!("expected an explicit icon path"),
    }
}

#[test]
fn success_passes_input_through_unchanged() {
    let r = notify_result(42i64, Ok(()), span());
    assert_eq!(r.ok(), Some(42));

    let text = notify_result("pipeline text".to_string(), Ok(()), span());
    assert_eq!(text.ok(), Some("pipeline text".to_string()));
}

#[test]
fn failure_carries_message_and_label() {
    let r = notify_result(1u8, Err("M".to_string()), span());
    match r {
        Ok(_) => panic!("expected an error"),
        Err(e) => {
            assert_eq!(e.message, "M");
            assert_eq!(e.label, "Notification Exception");
            assert_eq!(e.span.start, 11);
            assert_eq!(e.span.end, 17);
        }
    }
}

#[test]
fn extracting_twice_gives_same_result() {
    let call = call_with(vec![text_flag("summary", "same"), duration_flag("timeout", 9)]);
    assert_eq!(load_string(&call, "summary"), load_string(&call, "summary"));
    assert_eq!(load_string(&call, "summary"), Some("same".to_string()));
    assert_eq!(load_duration(&call, "timeout"), load_duration(&call, "timeout"));
    assert_eq!(load_duration(&call, "timeout"), Some(9));
}

#[test]
fn timeout_of_five_seconds_sets_finite_duration() {
    let call = call_with(vec![duration_flag("timeout", 5_000_000_000)]);
    assert_eq!(load_timeout(&call), Some(5_000_000_000));
    assert_eq!(build_request(&call).timeout_nanos, Some(5_000_000_000));
}

#[test]
fn timeout_omitted_leaves_system_default() {
    let call = call_with(vec![text_flag("summary", "x")]);
    assert_eq!(load_timeout(&call), None);
    assert_eq!(build_request(&call).timeout_nanos, None);
}

#[test]
fn timeout_of_wrong_kind_is_like_omission() {
    let call = call_with(vec![text_flag("timeout", "5sec")]);
    assert_eq!(load_timeout(&call), None);
    assert_eq!(build_request(&call).timeout_nanos, None);
}

#[test]
fn unrepresentable_timeout_is_skipped() {
    let call = call_with(vec![duration_flag("timeout", -1)]);
    assert_eq!(load_timeout(&call), None);
    assert_eq!(build_request(&call).timeout_nanos, None);
}

#[test]
fn first_matching_flag_decides() {
    let call = call_with(vec![text_flag("summary", "first"), text_flag("summary", "second")]);
    assert_eq!(load_string(&call, "summary"), Some("first".to_string()));
}

#[test]
fn build_done_scenario() {
    let call = call_with(vec![text_flag("summary", "Build done"), text_flag("app-name", "CI")]);
    let request = build_request(&call);
    assert_eq!(request.summary, Some("Build done".to_string()));
    assert_eq!(request.app_name, Some("CI".to_string()));
    assert_eq!(request.body, None);
    assert_eq!(request.subtitle, None);
    assert!(matches!(request.icon, IconChoice::Auto));
    assert_eq!(request.timeout_nanos, None);

    let r = notify_result(42i64, Ok(()), call.head);
    assert_eq!(r.ok(), Some(42));
}

#[test]
fn daemon_failure_scenario() {
    let call = call_with(vec![]);
    let r = notify_result(0u8, Err("no notification daemon running".to_string()), call.head);
    match r {
        Ok(_) => panic!("expected an error"),
        Err(e) => {
            assert_eq!(e.message, "no notification daemon running");
            assert_eq!(e.label, "Notification Exception");
        }
    }
}

#[test]
fn signature_announces_the_command_surface() {
    let signature = command_signature();
    assert_eq!(signature.name, "notify");
    assert_eq!(signature.usage, "sends notification with given parameters");
    assert_eq!(signature.category, "experimental");
    assert_eq!(signature.flags.len(), 6);

    assert_eq!(signature.flags[0].long, "summary");
    assert_eq!(signature.flags[0].short, Some('s'));
    assert_eq!(signature.flags[0].shape, FlagShape::Text);
    assert_eq!(signature.flags[1].long, "body");
    assert_eq!(signature.flags[1].short, Some('t'));
    assert_eq!(signature.flags[2].long, "subtitle");
    assert_eq!(signature.flags[2].short, None);
    assert_eq!(signature.flags[3].long, "app-name");
    assert_eq!(signature.flags[3].short, Some('a'));
    assert_eq!(signature.flags[4].long, "icon");
    assert_eq!(signature.flags[4].shape, FlagShape::Path);
    assert_eq!(signature.flags[5].long, "timeout");
    assert_eq!(signature.flags[5].shape, FlagShape::Duration);
}
