use grove::model::{CpuSpan, SessionStatus, Usage, WindowInfo};
use grove::notices::Notification;
use grove::protocol::Response;
use grove::service::queue::Command;
use grove::status_watch::{
    announce_again, git_refresh_due, interval, listen, poll_request, poll_result,
    resubscribe_after, subscribe, subscription_request, subscription_revision, Announced, Control,
    Observation, PaintClock, Poller, StreamEnd, Subscribed, WorktreeLabel, ANNOUNCEMENT_PAUSE,
    DORMANT_AFTER, DORMANT_INTERVAL, GIT_INTERVAL, POLL_INTERVAL,
};
use grove::table::Table;
use grove::ui::settings::StatusConfig;
use grove::workers::Message;
use serde_json::Value;

const SECOND: u128 = 1_000_000_000;

fn status_config(desktop_notifications: bool) -> StatusConfig {
    StatusConfig {
        working_window_secs: 10,
        agent_commands: vec!["aider".to_string()],
        bell_is_attention: false,
        desktop_notifications,
    }
}

fn json(text: &str) -> Value {
    serde_json::from_str(text).expect("valid JSON")
}

fn window(session: &str, index: u32) -> WindowInfo {
    WindowInfo {
        session: session.into(),
        index,
        name: "agent".into(),
        active: true,
        bell: false,
        title: Some("reviewing".into()),
        activity_epoch: Some(123),
        status: Some(SessionStatus::Working),
    }
}

fn observed(status: SessionStatus, cpu_usec: u64, windows: Vec<WindowInfo>) -> Observation {
    Observation { status, usage: Some(Usage { memory_bytes: 4096, cpu_usec }), windows }
}

fn found(entries: Vec<(&str, Observation)>) -> Table<Observation> {
    let mut table = Table::new();
    for (id, observation) in entries {
        table.insert(id.to_string(), observation);
    }
    table
}

#[test]
fn git_refreshes_on_the_first_tick_then_on_its_own_cadence() {
    let start = 1_000 * SECOND;
    assert!(git_refresh_due(None, start));
    assert!(!git_refresh_due(Some(start), start));
    assert!(!git_refresh_due(Some(start), start + 8 * SECOND));
    assert!(git_refresh_due(Some(start), start + GIT_INTERVAL));
    assert!(git_refresh_due(Some(start), start + 30 * SECOND));
    assert!(!git_refresh_due(Some(start), 0), "a clock that ran back is not due");
}

#[test]
fn a_painting_ui_holds_the_fast_cadence() {
    assert_eq!(interval(0), POLL_INTERVAL);
    assert_eq!(interval(POLL_INTERVAL), POLL_INTERVAL);
    assert_eq!(interval(DORMANT_AFTER), POLL_INTERVAL);
    assert_eq!(POLL_INTERVAL, 2 * SECOND);
}

#[test]
fn a_ui_that_stopped_painting_slows_the_poller() {
    assert_eq!(interval(DORMANT_AFTER + SECOND / 1000), DORMANT_INTERVAL);
    assert_eq!(interval(3600 * SECOND), DORMANT_INTERVAL);
    assert_eq!(DORMANT_INTERVAL, 30 * SECOND);
}

#[test]
fn a_clock_that_has_just_marked_reads_as_awake() {
    let mut clock = PaintClock::new();
    let now = PaintClock::millis(12 * SECOND);
    clock.mark(now);
    assert!(clock.since_paint(now) < DORMANT_AFTER);
    assert_eq!(interval(clock.since_paint(now)), POLL_INTERVAL);
}

#[test]
fn a_frame_after_a_long_gap_reports_the_gap_and_wakes_the_clock() {
    let gap = DORMANT_AFTER + 10 * SECOND;
    let mut clock = PaintClock::new();
    let now = PaintClock::millis(gap);
    assert!(clock.since_paint(now) >= gap);
    assert_eq!(interval(clock.since_paint(now)), DORMANT_INTERVAL);

    assert!(clock.mark(now) >= gap);
    assert!(clock.since_paint(now) < DORMANT_AFTER);
    assert_eq!(interval(clock.since_paint(now)), POLL_INTERVAL);

    let mut again = PaintClock::new();
    assert!(again.painted(now), "the frame after the gap is a reason to poll");
    assert!(!again.painted(now + 1));
    assert_eq!(PaintClock::millis(u128::MAX), u64::MAX);
}

#[test]
fn a_poll_answer_is_a_result_or_a_reason() {
    let rejected = Response::error("gui-status-poll", "tmux_failed", "private server refused");
    assert_eq!(
        poll_result(rejected),
        Err("tmux_failed: private server refused".to_string())
    );
    let empty = Response { id: "gui-status-poll".into(), ok: true, result: None, error: None };
    assert_eq!(
        poll_result(empty),
        Err("service status response has no result".to_string())
    );
    let full = Response::success("gui-status-poll", json(r#"{"abc123": 7}"#));
    assert_eq!(poll_result(full), Ok(json(r#"{"abc123": 7}"#)));
}

#[test]
fn subscription_acknowledgements_require_one_unsigned_revision() {
    assert_eq!(
        subscription_revision(&Response::success("gui-events", json(r#"{"revision": 42}"#))),
        Some(42)
    );
    for result in [
        "null",
        "{}",
        r#"{"revision": "42"}"#,
        r#"{"revision": -1}"#,
        r#"{"revision": 42, "unexpected": true}"#,
    ] {
        assert!(
            subscription_revision(&Response::success("gui-events", json(result))).is_none(),
            "accepted {result}"
        );
    }
}

#[test]
fn a_malformed_subscription_acknowledgement_never_invents_a_baseline() {
    assert_eq!(
        subscribe(&Response::success("gui-events", json("{}"))),
        Subscribed::Invalid
    );
    assert_eq!(
        subscribe(&Response::success("gui-events", json(r#"{"revision": 7}"#))),
        Subscribed::Started(7)
    );
}

#[test]
fn a_rejected_subscription_says_why() {
    assert_eq!(
        subscribe(&Response::error("gui-events", "subscription_rejected", "unsupported client")),
        Subscribed::Rejected("subscription_rejected: unsupported client".to_string())
    );
    let silent = Response { id: "gui-events".into(), ok: false, result: None, error: None };
    assert_eq!(
        subscribe(&silent),
        Subscribed::Rejected("invalid subscription response".to_string())
    );
}

#[test]
fn a_tick_folds_the_daemon_snapshot_and_emits_one_coherent_update() {
    let mut poller = Poller::new(false);
    let tick = poller.tick(
        found(vec![(
            "abc123",
            observed(SessionStatus::Working, 100, vec![window("wt-abc123", 1)]),
        )]),
        50 * SECOND,
        0,
    );
    let windows = tick.windows.get("wt-abc123").expect("windows");
    assert_eq!(windows.len(), 1);
    assert_eq!(windows[0].name, "agent");
    assert_eq!(windows[0].status, Some(SessionStatus::Working));
    let report = tick.reports.get("abc123").expect("report");
    assert_eq!(report.status, SessionStatus::Working);
    assert_eq!(report.usage.map(|usage| usage.memory_bytes), Some(4096));
    assert_eq!(report.cpu, None, "the first reading is a baseline");
    assert!(tick.raised.is_empty());
    assert!(tick.git_due);
    assert!(poller.previous_usage.contains("abc123"));
    assert!(poller.last_git_refresh.is_some());

    let next = poller.tick(Table::new(), 52 * SECOND, 0);
    assert!(next.reports.is_empty());
    assert!(!next.git_due);
    assert!(!poller.previous_usage.contains("abc123"), "readings of gone sessions are dropped");
    assert!(!poller.known.contains("abc123"));

    let (raised, messages) = poller.poll(
        Ok(found(vec![(
            "abc123",
            observed(SessionStatus::Working, 100, vec![window("wt-abc123", 1)]),
        )])),
        90 * SECOND,
        0,
    );
    assert!(raised.is_empty());
    assert!(matches!(
        messages.as_slice(),
        [Message::WindowsPolled(windows), Message::StatusPolled(reports), Message::GitStatusDue]
            if windows.contains("wt-abc123") && reports.contains("abc123")
    ));
    let (_, dormant) = poller.poll(Ok(Table::new()), 200 * SECOND, DORMANT_AFTER + 1);
    assert!(matches!(
        dormant.as_slice(),
        [Message::WindowsPolled(_), Message::StatusPolled(_)]
    ));
}

#[test]
fn a_failed_tick_reports_once_and_changes_no_poll_state() {
    let mut poller = Poller::new(false);
    poller.tick(
        found(vec![("abc123", observed(SessionStatus::Working, 100, Vec::new()))]),
        50 * SECOND,
        0,
    );
    let (raised, messages) =
        poller.poll(Err("tmux_failed: private server refused".into()), 90 * SECOND, 0);
    assert!(raised.is_empty());
    assert_eq!(messages.len(), 1);
    assert!(matches!(
        &messages[0],
        Message::Failed(report)
            if report.summary == "could not poll tmux for session status"
                && report.detail.as_deref() == Some("tmux_failed: private server refused")
    ));
    assert!(poller.known.contains("abc123"));
    assert!(poller.previous_usage.contains("abc123"));
    assert_eq!(poller.last_git_refresh, Some(50 * SECOND));
}

#[test]
fn the_stream_and_the_announcement_are_tried_again_at_their_own_pace() {
    assert_eq!(resubscribe_after(StreamEnd::Unreachable), SECOND);
    assert_eq!(resubscribe_after(StreamEnd::Refused), SECOND);
    assert_eq!(resubscribe_after(StreamEnd::Broken), SECOND / 4);
    assert_eq!(announce_again(1, Announced::Missed), (ANNOUNCEMENT_PAUSE, true));
    assert_eq!(announce_again(19, Announced::Missed), (ANNOUNCEMENT_PAUSE, true));
    assert_eq!(announce_again(20, Announced::Missed), (ANNOUNCEMENT_PAUSE, false));
    assert_eq!(announce_again(1, Announced::Delivered), (0, false));
    assert_eq!(announce_again(1, Announced::Failed), (0, false));
}

#[test]
fn attention_is_raised_once_per_transition() {
    let mut poller = Poller::new(true);
    let asking = || found(vec![("abc123", observed(SessionStatus::Attention, 1, Vec::new()))]);
    assert_eq!(poller.tick(asking(), 0, 0).raised, vec!["abc123".to_string()]);
    assert!(poller.tick(asking(), 1, 0).raised.is_empty());
    let idle = found(vec![("abc123", observed(SessionStatus::Idle, 1, Vec::new()))]);
    assert!(poller.tick(idle, 2, 0).raised.is_empty());
    assert_eq!(poller.tick(asking(), 3, 0).raised, vec!["abc123".to_string()]);

    assert!(poller.announce("abc123").is_none(), "a worktree without a name");
    let mut labels = Table::new();
    labels.insert(
        "abc123".to_string(),
        WorktreeLabel { project: "Grove".into(), worktree: "main".into() },
    );
    poller.apply(Control::Describe(labels));
    let attention = poller.announce("abc123").expect("a notification");
    assert_eq!(attention.project, "Grove");
    assert_eq!(attention.worktree, "main");
    poller.apply(Control::Reconfigure(status_config(false)));
    assert!(poller.announce("abc123").is_none());
}

#[test]
fn controls_update_only_the_poller_policy_and_labels() {
    let mut poller = Poller::new(false);
    let mut labels = Table::new();
    labels.insert(
        "abc123".to_string(),
        WorktreeLabel { project: "Grove".into(), worktree: "main".into() },
    );
    poller.apply(Control::Describe(labels));
    assert_eq!(poller.labels.get("abc123").map(|l| l.project.as_str()), Some("Grove"));

    poller.apply(Control::Reconfigure(status_config(true)));
    assert!(poller.notify_desktop);

    poller.apply(Control::PollNow);
    assert!(poller.notify_desktop, "poll-now changes no policy");
}

#[test]
fn cpu_rates_require_two_readings_and_missing_usage_resets_nothing() {
    let mut poller = Poller::new(false);
    let first = 5 * SECOND;
    let baseline = Usage { memory_bytes: 1024, cpu_usec: 1_000_000 };
    assert_eq!(poller.cpu_percent("abc123", None, first), None);
    assert_eq!(poller.cpu_percent("abc123", Some(baseline), first), None);

    let current = Usage { memory_bytes: 2048, cpu_usec: 1_500_000 };
    let span = poller.cpu_percent("abc123", Some(current), first + SECOND);
    assert_eq!(
        span,
        Some(CpuSpan { previous: baseline, current, elapsed_nanos: SECOND })
    );
    let span = span.expect("two readings");
    let used = (span.current.cpu_usec - span.previous.cpu_usec) as f32 * 1000.0;
    assert_eq!(used / span.elapsed_nanos as f32 * 100.0, 50.0);
    assert_eq!(
        poller.previous_usage.get("abc123").map(|reading| reading.0),
        Some(current),
        "the newest cumulative counter becomes the next baseline"
    );
}

#[test]
fn a_dormant_tick_never_requests_expensive_git_status() {
    let mut poller = Poller::new(false);
    let tick = poller.tick(Table::new(), 50 * SECOND, DORMANT_AFTER + SECOND);
    assert!(tick.windows.is_empty());
    assert!(tick.reports.is_empty());
    assert!(!tick.git_due);
    assert_eq!(poller.last_git_refresh, None);
}

#[test]
fn only_reports_and_toggles_reach_the_window() {
    assert!(matches!(
        listen(Command::Toggle { slot: Some(3) }),
        Some(Message::Toggled { slot: Some(3) })
    ));
    assert!(matches!(
        listen(Command::Notify(Notification::new("a1b2c3", SessionStatus::Idle))),
        Some(Message::Notified(_))
    ));
    assert!(listen(Command::Ping).is_none());
    assert!(listen(Command::GuiReady).is_none());
}

#[test]
fn the_window_asks_for_a_poll_and_for_every_event() {
    let poll = poll_request(1);
    assert_eq!((poll.protocol, poll.id.as_str()), (1, "gui-status-poll"));
    assert_eq!(poll.method, "status.poll");
    assert_eq!(poll.params, json("null"));
    let events = subscription_request(1);
    assert_eq!(events.id, "gui-events");
    assert_eq!(events.method, "event.subscribe");
    assert_eq!(
        events.params,
        json(
            r#"{
                "client": "gui",
                "topics": [
                    "state_changed",
                    "reconciliation_completed",
                    "notification_received",
                    "control_completed"
                ]
            }"#
        )
    );
    assert_eq!(
        subscription_revision(&Response::success("gui-events", json("[42]"))),
        Some(42)
    );
}
