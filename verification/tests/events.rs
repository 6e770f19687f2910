use pulse::events::{PulseEvent, DEFAULT_CHANNEL_CAPACITY};

#[test]
fn process_running_builds_the_one_variant() {
    let event = PulseEvent::process_running(String::from("nginx"), true);
    assert_eq!(
        event,
        PulseEvent::ProcessRunning {
            name: String::from("nginx"),
            is_running: true
        }
    );
}

#[test]
fn process_running_keeps_a_negative_state() {
    let event = PulseEvent::process_running(String::from("nginx"), false);
    assert_eq!(
        event,
        PulseEvent::ProcessRunning {
            name: String::from("nginx"),
            is_running: false
        }
    );
}

#[test]
fn event_gives_back_its_fields() {
    let event = PulseEvent::process_running(String::from("sshd"), true);
    assert_eq!(event.name(), "sshd");
    assert!(event.is_running());
    let event = PulseEvent::process_running(String::from("sshd"), false);
    assert_eq!(event.name(), "sshd");
    assert!(!event.is_running());
}

#[test]
fn events_are_equal_exactly_when_their_fields_are() {
    let up = PulseEvent::process_running(String::from("a"), true);
    assert_eq!(up, up.clone());
    assert_ne!(up, PulseEvent::process_running(String::from("a"), false));
    assert_ne!(up, PulseEvent::process_running(String::from("b"), true));
    assert_ne!(up, PulseEvent::process_running(String::from("A"), true));
}

#[test]
fn event_formats_for_debugging() {
    let event = PulseEvent::process_running(String::from("fresh"), false);
    assert_eq!(
        format!("{:?}", event),
        "ProcessRunning { name: \"fresh\", is_running: false }"
    );
}

#[test]
fn matching_on_an_event_is_exhaustive_with_one_arm() {
    let event = PulseEvent::process_running(String::from("cron"), true);
    let (name, is_running) = match event {
        PulseEvent::ProcessRunning { name, is_running } => (name, is_running),
    };
    assert_eq!(name, "cron");
    assert!(is_running);
}

#[test]
fn default_channel_capacity_is_ten() {
    assert_eq!(DEFAULT_CHANNEL_CAPACITY, 10);
}
