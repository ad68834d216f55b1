use wineprefix::debug::{DebugChannel, DebugClass, DebugRule, DebugRules};

#[test]
fn empty_rules_encode_to_empty_string() {
    assert_eq!(DebugRules::new().encode(), "");
}

#[test]
fn single_unfiltered_enable_heap() {
    let rules = DebugRules::new().add(DebugRule {
        process: None,
        class: None,
        channel: DebugChannel::Heap,
        is_enabled: true,
    });
    assert_eq!(rules.encode(), "+heap");
}

#[test]
fn fully_filtered_disable_heap() {
    let rules = DebugRules::new().add(DebugRule {
        process: Some(String::from("foo.exe")),
        class: Some(DebugClass::Error),
        channel: DebugChannel::Heap,
        is_enabled: false,
    });
    assert_eq!(rules.encode(), "foo.exe:err:-heap");
}

#[test]
fn rules_keep_input_order_with_one_comma_per_gap() {
    let rules = DebugRules::new()
        .enable(DebugChannel::Heap)
        .disable(DebugChannel::Seh)
        .add(DebugRule {
            process: Some(String::from("app.exe")),
            class: Some(DebugClass::Warn),
            channel: DebugChannel::Fps,
            is_enabled: true,
        });
    let encoded = rules.encode();
    assert_eq!(encoded, "+heap,-seh,app.exe:warn:+fps");
    assert_eq!(encoded.chars().filter(|c| *c == ',').count(), 2);
}

#[test]
fn enable_and_disable_set_the_sign() {
    assert_eq!(DebugRules::new().enable(DebugChannel::All).encode(), "+all");
    assert_eq!(DebugRules::new().disable(DebugChannel::All).encode(), "-all");
}

#[test]
fn class_names_are_canonical_lowercase() {
    assert_eq!(DebugClass::Trace.as_os_str(), "trace");
    assert_eq!(DebugClass::Warn.as_os_str(), "warn");
    assert_eq!(DebugClass::Error.as_os_str(), "err");
    assert_eq!(DebugClass::Fixme.as_os_str(), "fixme");
}

#[test]
fn channel_names_are_canonical_lowercase() {
    assert_eq!(DebugChannel::All.as_os_str(), "all");
    assert_eq!(DebugChannel::Heap.as_os_str(), "heap");
    assert_eq!(DebugChannel::LoadDll.as_os_str(), "loaddll");
    assert_eq!(DebugChannel::Module.as_os_str(), "module");
    assert_eq!(DebugChannel::Pid.as_os_str(), "pid");
    assert_eq!(DebugChannel::Relay.as_os_str(), "relay");
    assert_eq!(DebugChannel::Seh.as_os_str(), "seh");
    assert_eq!(DebugChannel::Server.as_os_str(), "server");
    assert_eq!(DebugChannel::Snoop.as_os_str(), "snoop");
    assert_eq!(DebugChannel::Synchronous.as_os_str(), "synchronous");
    assert_eq!(DebugChannel::Timestamp.as_os_str(), "timestamp");
    assert_eq!(DebugChannel::Fps.as_os_str(), "fps");
    assert_eq!(DebugChannel::DebugString.as_os_str(), "debugstr");
    assert_eq!(DebugChannel::ThreadName.as_os_str(), "threadname");
}

#[test]
fn other_channel_text_is_kept_verbatim() {
    let rules = DebugRules::new().enable(DebugChannel::Other(String::from("d3d")));
    assert_eq!(rules.encode(), "+d3d");
}

#[test]
fn class_filter_without_process_filter() {
    let rules = DebugRules::new().add(DebugRule {
        process: None,
        class: Some(DebugClass::Fixme),
        channel: DebugChannel::Module,
        is_enabled: true,
    });
    assert_eq!(rules.encode(), "fixme:+module");
}

#[test]
fn process_filter_without_class_filter() {
    let rules = DebugRules::new().add(DebugRule {
        process: Some(String::from("game.exe")),
        class: None,
        channel: DebugChannel::Relay,
        is_enabled: false,
    });
    assert_eq!(rules.encode(), "game.exe:-relay");
}
