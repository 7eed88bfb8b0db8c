use grove::ui::settings::{
    body, hint_parent, Action, Config, ConfigKey, Edit, Form, Frame, Probe, StatusConfig, Tone,
};

const TEMPLATE: &str = "foot tmux -S {socket} attach-session -t {session}";

fn config(command: &str, parent: &str) -> Config {
    Config {
        terminal_command: command.to_string(),
        default_parent: parent.to_string(),
        can_resume: true,
        status: StatusConfig {
            working_window_secs: 10,
            agent_commands: Vec::new(),
            bell_is_attention: false,
            desktop_notifications: false,
        },
    }
}

fn edit(key: ConfigKey, value: &str) -> Edit {
    Edit { key, value: value.to_string() }
}

#[test]
fn a_fresh_form_has_nothing_to_save() {
    let form = Form::new(Some(&config(TEMPLATE, "/home/u/wt")));
    assert!(!form.is_dirty());
    assert!(form.edits().is_empty());
    assert_eq!(form.problem(&Ok(())), None);
}

#[test]
fn a_form_without_a_config_is_empty_and_invalid_until_filled() {
    let mut form = Form::new(None);
    assert!(!form.is_dirty());
    assert!(form.problem(&Err("the template is empty".into())).is_some());
    form.terminal_command = TEMPLATE.to_string();
    assert!(form.is_dirty());
    assert_eq!(form.problem(&Ok(())), None);
}

#[test]
fn only_edited_keys_are_written() {
    let mut form = Form::new(Some(&config(TEMPLATE, "/home/u/wt")));
    form.terminal_command = "kitty tmux -S {socket}".to_string();
    assert_eq!(
        form.edits(),
        vec![edit(ConfigKey::TerminalCommand, "kitty tmux -S {socket}")]
    );

    form.default_parent = "/tmp/trees".to_string();
    assert_eq!(form.edits().len(), 2);
    assert_eq!(form.edits()[1].key, ConfigKey::WorktreesDefaultParent);
}

#[test]
fn values_are_trimmed_on_the_way_into_the_file() {
    let mut form = Form::new(Some(&config(TEMPLATE, "")));
    form.default_parent = "  /home/u/wt  ".to_string();
    assert_eq!(
        form.edits(),
        vec![edit(ConfigKey::WorktreesDefaultParent, "/home/u/wt")]
    );
}

#[test]
fn a_broken_template_blocks_the_save() {
    let mut form = Form::new(Some(&config(TEMPLATE, "")));
    form.terminal_command = "foot 'unclosed".to_string();
    assert!(form.is_dirty());
    let problem = form.problem(&Err("unclosed quote".into()));
    assert!(problem.is_some());
    assert!(!form.save(&problem));
    assert!(!form.saving);
}

#[test]
fn a_reload_adopts_the_file_as_the_new_baseline() {
    let mut form = Form::new(Some(&config(TEMPLATE, "")));
    form.terminal_command = "kitty".to_string();
    form.saving = true;
    form.reloaded(&config("kitty", ""));
    assert!(!form.saving);
    assert!(!form.is_dirty(), "the save landed, nothing left to write");
}

#[test]
fn a_reload_while_editing_keeps_the_users_text() {
    let mut form = Form::new(Some(&config(TEMPLATE, "")));
    form.terminal_command = "kitty".to_string();
    form.reloaded(&config(TEMPLATE, ""));
    assert_eq!(form.terminal_command, "kitty");
    assert!(form.is_dirty());
}

#[test]
fn a_probe_only_counts_for_the_command_it_ran_against() {
    let mut form = Form::new(Some(&config(TEMPLATE, "")));
    form.probe = Some(Probe {
        command: TEMPLATE.to_string(),
        program: "foot".to_string(),
        found: true,
    });
    assert!(form.current_probe().is_some());
    assert_eq!(form.probe_line(), ("foot is on PATH".to_string(), Tone::Good));
    form.terminal_command = "kitty".to_string();
    assert!(form.current_probe().is_none(), "a stale answer must not be shown as current");
    assert_eq!(
        form.probe_line(),
        ("checking the executable…".to_string(), Tone::Faint)
    );
}

#[test]
fn a_save_is_started_once_and_says_so() {
    let mut form = Form::new(Some(&config(TEMPLATE, "")));
    assert_eq!(
        form.status_line(&None),
        ("Edits are written key by key; your comments stay.".to_string(), Tone::Faint)
    );
    assert!(!form.save(&None), "nothing changed");
    form.terminal_command = "kitty".to_string();
    assert_eq!(form.status_line(&None), ("Unsaved changes".to_string(), Tone::Warning));
    assert!(form.save(&None));
    assert!(!form.save(&None), "one save at a time");
    assert_eq!(form.status_line(&None), ("Saving…".to_string(), Tone::Muted));
    assert_eq!(
        form.status_line(&Some("unclosed quote".into())),
        ("unclosed quote".to_string(), Tone::Danger)
    );
    form.reloaded(&config("kitty", ""));
    form.note = Some("Saved.".into());
    assert_eq!(form.status_line(&None), ("Saved.".to_string(), Tone::Muted));
    form.probe = Some(Probe { command: "kitty".into(), program: "kitty".into(), found: false });
    assert_eq!(
        form.probe_line(),
        ("kitty was not found on PATH".to_string(), Tone::Danger)
    );
}

#[test]
fn a_frame_of_the_pane_asks_for_one_thing() {
    let mut form = Form::new(Some(&config(TEMPLATE, "")));
    let idle = Frame {
        command_typed: false,
        detect: false,
        parent_typed: false,
        browse: false,
        save: false,
        open_file: false,
        copied: false,
    };
    form.note = Some("Saved.".into());
    assert_eq!(body(&mut form, idle, &Ok(())), None);
    assert_eq!(form.note.as_deref(), Some("Saved."));
    form.terminal_command = "kitty".into();
    let typed = Frame { command_typed: true, ..idle };
    assert_eq!(body(&mut form, typed, &Ok(())), Some(Action::Probe("kitty".into())));
    assert_eq!(form.note, None);
    assert_eq!(
        body(&mut form, Frame { detect: true, ..typed }, &Ok(())),
        Some(Action::DetectTerminal)
    );
    assert_eq!(
        body(&mut form, Frame { browse: true, detect: true, ..typed }, &Ok(())),
        Some(Action::BrowseWorktreeParent)
    );
    let save = Frame { save: true, browse: true, ..idle };
    assert_eq!(
        body(&mut form, save, &Err("unclosed quote".into())),
        Some(Action::BrowseWorktreeParent)
    );
    assert_eq!(body(&mut form, save, &Ok(())), Some(Action::Save));
    assert!(form.saving);
    assert_eq!(
        body(&mut form, Frame { open_file: true, copied: true, ..save }, &Ok(())),
        Some(Action::OpenConfigFile)
    );
    assert_eq!(form.note.as_deref(), Some("Copied the path."));
}

#[test]
fn the_hint_for_the_parent_is_under_home() {
    assert_eq!(hint_parent(Some("/home/u")), "/home/u/worktrees");
    assert_eq!(hint_parent(Some("/")), "/worktrees");
    assert_eq!(hint_parent(None), "/home/you/worktrees");
}
