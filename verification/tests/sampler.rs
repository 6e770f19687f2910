use pulse::events::PulseEvent;
use pulse::sampler::{count_matches, is_listed, sample_from_query, Sample, SampleError};

fn table_of(names: &[&str]) -> Vec<String> {
    names.iter().map(|name| String::from(*name)).collect()
}

#[test]
fn running_sample_becomes_running_event() {
    let sample = Sample {
        name: String::from("postgres"),
        is_running: true,
    };
    assert_eq!(
        sample.into_event(),
        PulseEvent::ProcessRunning {
            name: String::from("postgres"),
            is_running: true
        }
    );
}

#[test]
fn absent_sample_becomes_not_running_event() {
    let sample = Sample {
        name: String::from("postgres"),
        is_running: false,
    };
    assert_eq!(
        sample.into_event(),
        PulseEvent::ProcessRunning {
            name: String::from("postgres"),
            is_running: false
        }
    );
}

#[test]
fn sample_to_event_keeps_any_name() {
    for name in ["a", "two words", "naïve", "x".repeat(300).as_str()] {
        for is_running in [true, false] {
            let sample = Sample {
                name: String::from(name),
                is_running,
            };
            assert_eq!(
                sample.into_event(),
                PulseEvent::ProcessRunning {
                    name: String::from(name),
                    is_running
                }
            );
        }
    }
}

#[test]
fn listed_name_is_found() {
    let table = table_of(&["init", "bash", "fresh", "sshd"]);
    assert!(is_listed(&String::from("fresh"), &table));
    assert!(is_listed(&String::from("init"), &table));
    assert!(is_listed(&String::from("sshd"), &table));
}

#[test]
fn unlisted_name_is_not_found() {
    let table = table_of(&["init", "bash", "sshd"]);
    assert!(!is_listed(&String::from("fresh"), &table));
}

#[test]
fn empty_table_lists_nothing() {
    let table: Vec<String> = Vec::new();
    assert!(!is_listed(&String::from("fresh"), &table));
    assert_eq!(count_matches(&String::from("fresh"), &table), 0);
}

#[test]
fn match_is_case_sensitive() {
    let table = table_of(&["Fresh", "FRESH", "fresH"]);
    assert!(!is_listed(&String::from("fresh"), &table));
    assert_eq!(count_matches(&String::from("fresh"), &table), 0);
    assert!(is_listed(&String::from("Fresh"), &table));
}

#[test]
fn match_is_whole_name_only() {
    let table = table_of(&["fresher", "refresh", "fres", "fresh ", " fresh", ""]);
    assert!(!is_listed(&String::from("fresh"), &table));
    assert_eq!(count_matches(&String::from("fresh"), &table), 0);
}

#[test]
fn several_matches_still_mean_running() {
    let table = table_of(&["fresh", "bash", "fresh", "fresh"]);
    assert_eq!(count_matches(&String::from("fresh"), &table), 3);
    assert!(is_listed(&String::from("fresh"), &table));
    let sample = Sample::observe(&String::from("fresh"), &table);
    assert_eq!(
        sample,
        Sample {
            name: String::from("fresh"),
            is_running: true
        }
    );
}

#[test]
fn count_agrees_with_listing() {
    let tables = [
        table_of(&[]),
        table_of(&["a"]),
        table_of(&["b"]),
        table_of(&["a", "a"]),
        table_of(&["b", "a", "c"]),
        table_of(&["c", "b"]),
    ];
    for table in tables.iter() {
        let name = String::from("a");
        assert_eq!(count_matches(&name, table) >= 1, is_listed(&name, table));
        assert!(count_matches(&name, table) <= table.len());
    }
}

#[test]
fn count_is_exact() {
    let table = table_of(&["a", "b", "a", "c", "a", "b"]);
    assert_eq!(count_matches(&String::from("a"), &table), 3);
    assert_eq!(count_matches(&String::from("b"), &table), 2);
    assert_eq!(count_matches(&String::from("c"), &table), 1);
    assert_eq!(count_matches(&String::from("d"), &table), 0);
}

#[test]
fn observe_reports_the_name_it_was_asked_about() {
    let table = table_of(&["bash"]);
    let sample = Sample::observe(&String::from("fresh"), &table);
    assert_eq!(
        sample,
        Sample {
            name: String::from("fresh"),
            is_running: false
        }
    );
    let sample = Sample::observe(&String::from("bash"), &table);
    assert_eq!(
        sample,
        Sample {
            name: String::from("bash"),
            is_running: true
        }
    );
}

#[test]
fn query_with_table_gives_sample() {
    let outcome = Ok(table_of(&["bash", "fresh"]));
    assert_eq!(
        sample_from_query(&String::from("fresh"), &outcome),
        Ok(Sample {
            name: String::from("fresh"),
            is_running: true
        })
    );
    let outcome = Ok(table_of(&["bash"]));
    assert_eq!(
        sample_from_query(&String::from("fresh"), &outcome),
        Ok(Sample {
            name: String::from("fresh"),
            is_running: false
        })
    );
}

#[test]
fn failed_query_gives_error_not_absence() {
    let outcome: Result<Vec<String>, String> = Err(String::from("permission denied"));
    let result = sample_from_query(&String::from("fresh"), &outcome);
    assert_eq!(
        result,
        Err(SampleError {
            reason: String::from("permission denied")
        })
    );
    assert_ne!(
        result,
        Ok(Sample {
            name: String::from("fresh"),
            is_running: false
        })
    );
}

#[test]
fn failed_query_keeps_an_empty_reason() {
    let outcome: Result<Vec<String>, String> = Err(String::new());
    assert_eq!(
        sample_from_query(&String::from("fresh"), &outcome),
        Err(SampleError {
            reason: String::new()
        })
    );
}
