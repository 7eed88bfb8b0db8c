use grove::hooks::{missing, report, run, Done, HookCommand};
use grove::workers::HookChange;

fn strings(values: &[&str]) -> Vec<String> {
    values.iter().map(|value| (*value).to_string()).collect()
}

fn change(changed: bool, installed: &[&str]) -> HookChange {
    HookChange {
        agent: "the agent".into(),
        path: "/s.json".into(),
        changed,
        backup: None,
        installed: strings(installed),
    }
}

#[test]
fn the_first_word_says_what_is_to_be_done() {
    assert_eq!(run(&Vec::new()), HookCommand::Status);
    assert_eq!(run(&strings(&["help"])), HookCommand::Help);
    assert_eq!(run(&strings(&["install"])), HookCommand::Install);
    assert_eq!(run(&strings(&["uninstall"])), HookCommand::Uninstall);
    assert_eq!(run(&strings(&["print"])), HookCommand::Print);
    assert_eq!(run(&strings(&["dance"])), HookCommand::Unknown("dance".into()));
}

#[test]
fn the_report_says_where_the_hooks_stand() {
    let events = strings(&["Stop", "Notification"]);
    let command = "grove notify --hook";
    assert_eq!(
        report(Done::Install, &change(true, &["Stop", "Notification"]), command, &events),
        vec![
            "/s.json",
            "installed `grove notify --hook` on Stop, Notification",
            "restart the agent for them to take effect",
        ]
    );
    assert_eq!(
        report(Done::Install, &change(false, &["Stop"]), command, &events),
        vec!["/s.json", "already installed on Stop"]
    );
    assert_eq!(
        report(Done::Uninstall, &change(true, &[]), command, &events),
        vec!["/s.json", "removed Grove's hooks"]
    );
    assert_eq!(
        report(Done::Uninstall, &change(false, &[]), command, &events),
        vec!["/s.json", "nothing of Grove's was there"]
    );
    assert_eq!(
        report(Done::Status, &change(false, &["Notification", "Stop"]), command, &events),
        vec!["/s.json", "installed on Notification, Stop"]
    );
    assert_eq!(
        report(Done::Status, &change(false, &[]), command, &events),
        vec!["/s.json", "not installed — run `grove hooks install`"]
    );
    assert_eq!(
        report(Done::Status, &change(false, &["Stop"]), command, &events),
        vec!["/s.json", "partly installed: Stop (missing Notification)"]
    );
    let mut backed_up = change(true, &[]);
    backed_up.backup = Some("/s.json.bak".into());
    assert_eq!(
        report(Done::Uninstall, &backed_up, command, &events)[1],
        "backed up to /s.json.bak"
    );
    assert_eq!(missing(&change(false, &["Stop"]), &events), strings(&["Notification"]));
}
