use k8s_openapi::apimachinery::pkg::apis::meta::v1::Time;
use k8s_openapi::jiff::Timestamp;
use taint_controller::config::TaintSpec;
use taint_controller::controller::contains_taint;

fn taint(key: &str, value: Option<&str>, effect: &str) -> TaintSpec {
    TaintSpec {
        key: key.to_string(),
        value: value.map(|v| v.to_string()),
        effect: effect.to_string(),
        time_added: None,
    }
}

#[test]
fn empty_list_holds_no_taint() {
    assert!(!contains_taint(&vec![], &taint("dedicated", Some("gpu"), "NoSchedule")));
}

#[test]
fn identical_taint_is_present() {
    let list = vec![taint("dedicated", Some("gpu"), "NoSchedule")];
    assert!(contains_taint(&list, &taint("dedicated", Some("gpu"), "NoSchedule")));
}

#[test]
fn taint_is_found_wherever_it_stands() {
    let list = vec![
        taint("a", None, "NoExecute"),
        taint("b", Some("x"), "PreferNoSchedule"),
        taint("dedicated", Some("gpu"), "NoSchedule"),
    ];
    assert!(contains_taint(&list, &taint("a", None, "NoExecute")));
    assert!(contains_taint(&list, &taint("b", Some("x"), "PreferNoSchedule")));
    assert!(contains_taint(&list, &taint("dedicated", Some("gpu"), "NoSchedule")));
}

#[test]
fn same_key_with_other_effect_is_not_present() {
    let list = vec![taint("dedicated", Some("gpu"), "NoExecute")];
    assert!(!contains_taint(&list, &taint("dedicated", Some("gpu"), "NoSchedule")));
}

#[test]
fn same_key_with_other_value_is_not_present() {
    let list = vec![taint("dedicated", Some("cpu"), "NoSchedule")];
    assert!(!contains_taint(&list, &taint("dedicated", Some("gpu"), "NoSchedule")));
}

#[test]
fn missing_value_and_empty_value_are_told_apart() {
    let list = vec![taint("dedicated", None, "NoSchedule")];
    assert!(!contains_taint(&list, &taint("dedicated", Some(""), "NoSchedule")));
    let list = vec![taint("dedicated", Some(""), "NoSchedule")];
    assert!(!contains_taint(&list, &taint("dedicated", None, "NoSchedule")));
}

#[test]
fn other_key_with_same_value_and_effect_is_not_present() {
    let list = vec![taint("reserved", Some("gpu"), "NoSchedule")];
    assert!(!contains_taint(&list, &taint("dedicated", Some("gpu"), "NoSchedule")));
}

#[test]
fn fields_spread_over_several_entries_do_not_add_up() {
    let list = vec![
        taint("dedicated", Some("cpu"), "NoSchedule"),
        taint("dedicated", Some("gpu"), "NoExecute"),
        taint("reserved", Some("gpu"), "NoSchedule"),
    ];
    assert!(!contains_taint(&list, &taint("dedicated", Some("gpu"), "NoSchedule")));
}

#[test]
fn recorded_instant_does_not_hide_a_taint() {
    let mut seen = taint("dedicated", Some("gpu"), "NoExecute");
    seen.time_added = Some(Time(Timestamp::from_second(1_700_000_000).unwrap()));
    assert!(contains_taint(&vec![seen], &taint("dedicated", Some("gpu"), "NoExecute")));
}
