//! The settings pane. Nothing is written on a keystroke: edits live in the form
//! until they are saved, and only the keys that changed are written.
use vstd::prelude::*;
use vstd::string::*;

use crate::model::text_view;
use crate::notify::texts;
use crate::text::{join_path, joined_path, trim, trimmed};

verus! {

/// How the sessions' statuses are told.
#[derive(Debug, PartialEq, Eq)]
pub struct StatusConfig {
    /// For how many seconds after its last output a session counts as working.
    pub working_window_secs: u64,
    /// The programs that are agents.
    pub agent_commands: Vec<String>,
    /// A bell in a session asks for the user.
    pub bell_is_attention: bool,
    pub desktop_notifications: bool,
}

pub struct StatusConfigView {
    pub working_window_secs: u64,
    pub agent_commands: Seq<Seq<char>>,
    pub bell_is_attention: bool,
    pub desktop_notifications: bool,
}

impl View for StatusConfig {
    type V = StatusConfigView;

    open spec fn view(&self) -> StatusConfigView {
        StatusConfigView {
            working_window_secs: self.working_window_secs,
            agent_commands: texts(self.agent_commands@),
            bell_is_attention: self.bell_is_attention,
            desktop_notifications: self.desktop_notifications,
        }
    }
}

impl Clone for StatusConfig {
    fn clone(&self) -> (r: Self)
        ensures
            r@ == self@,
    {
        let mut agent_commands: Vec<String> = Vec::new();
        let mut i: usize = 0;
        while i < self.agent_commands.len()
            invariant
                i <= self.agent_commands.len(),
                agent_commands@ == self.agent_commands@.subrange(0, i as int),
            decreases self.agent_commands.len() - i,
        {
            agent_commands.push(self.agent_commands[i].clone());
            i += 1;
            assert(agent_commands@ =~= self.agent_commands@.subrange(0, i as int));
        }
        assert(agent_commands@ =~= self.agent_commands@);
        StatusConfig {
            working_window_secs: self.working_window_secs,
            agent_commands,
            bell_is_attention: self.bell_is_attention,
            desktop_notifications: self.desktop_notifications,
        }
    }
}

/// What of the configuration the windows go by.
#[derive(Debug, PartialEq, Eq)]
pub struct Config {
    pub terminal_command: String,
    pub default_parent: String,
    /// There is a command to resume an agent's conversation with.
    pub can_resume: bool,
    pub status: StatusConfig,
}

/// What the settings say of Grove's hooks.
#[derive(Debug, Clone, Copy, PartialEq, Eq, Structural)]
pub enum HookOp {
    Check,
    Install,
    Uninstall,
}

/// What the pane is asking for.
#[derive(Debug, Clone, PartialEq, Eq)]
pub enum Action {
    /// Write the changed keys.
    Save,
    /// Detect the terminal again and put it in the field.
    DetectTerminal,
    /// Check whether this template's program is there.
    Probe(String),
    /// Open the configuration file.
    OpenConfigFile,
    /// Check, install or remove the hooks.
    ClaudeHooks(HookOp),
    /// Pick the default worktree parent with the directory picker.
    BrowseWorktreeParent,
}

/// The answer of a probe, with the exact template it was run for.
#[derive(Debug, Clone, PartialEq, Eq)]
pub struct Probe {
    pub command: String,
    pub program: String,
    pub found: bool,
}

/// A key of the configuration file.
#[derive(Debug, Clone, Copy, PartialEq, Eq, Structural)]
pub enum ConfigKey {
    TerminalCommand,
    WorktreesDefaultParent,
}

/// One key to write, and its value.
#[derive(Debug, Clone, PartialEq, Eq)]
pub struct Edit {
    pub key: ConfigKey,
    pub value: String,
}

/// Everything the pane holds between frames.
#[derive(Debug, Clone, PartialEq, Eq)]
pub struct Form {
    pub terminal_command: String,
    pub default_parent: String,
    /// The values as they are in the file, to tell what changed.
    pub loaded_terminal: String,
    pub loaded_parent: String,
    pub probe: Option<Probe>,
    /// A save is on its way.
    pub saving: bool,
    /// Confirmation of the last successful save.
    pub note: Option<String>,
}

/// How a line is to be taken.
#[derive(Debug, Clone, Copy, PartialEq, Eq, Structural)]
pub enum Tone {
    Good,
    Danger,
    Warning,
    Muted,
    Faint,
}

/// The edits as pairs of key and characters.
pub open spec fn edit_views(edits: Seq<Edit>) -> Seq<(ConfigKey, Seq<char>)> {
    edits.map_values(|e: Edit| (e.key, e.value@))
}

impl Default for Form {
    fn default() -> (r: Self)
        ensures
            r.terminal_command@.len() == 0,
            r.default_parent@.len() == 0,
            r.loaded_terminal@.len() == 0,
            r.loaded_parent@.len() == 0,
            r.probe is None,
            !r.saving,
            r.note is None,
    {
        Form {
            terminal_command: String::new(),
            default_parent: String::new(),
            loaded_terminal: String::new(),
            loaded_parent: String::new(),
            probe: None,
            saving: false,
            note: None,
        }
    }
}

impl Form {
    /// The keys that changed, each with its value without the space around it.
    pub open spec fn changes(self) -> Seq<(ConfigKey, Seq<char>)> {
        let terminal = if self.terminal_command@ != self.loaded_terminal@ {
            seq![(ConfigKey::TerminalCommand, trimmed(self.terminal_command@))]
        } else {
            Seq::empty()
        };
        if self.default_parent@ != self.loaded_parent@ {
            terminal.push((ConfigKey::WorktreesDefaultParent, trimmed(self.default_parent@)))
        } else {
            terminal
        }
    }

    /// The form with the file's values as what was loaded; where a save is
    /// landing, as what is in the fields too.
    pub open spec fn with_baseline(self, config: Config) -> Form {
        Form {
            loaded_terminal: config.terminal_command,
            loaded_parent: config.default_parent,
            terminal_command: if self.saving {
                config.terminal_command
            } else {
                self.terminal_command
            },
            default_parent: if self.saving {
                config.default_parent
            } else {
                self.default_parent
            },
            saving: false,
            ..self
        }
    }

    pub fn new(config: Option<&Config>) -> (r: Self)
        ensures
            r.terminal_command@ == (match config {
                Some(c) => c.terminal_command@,
                None => Seq::empty(),
            }),
            r.default_parent@ == (match config {
                Some(c) => c.default_parent@,
                None => Seq::empty(),
            }),
            r.loaded_terminal@ == r.terminal_command@,
            r.loaded_parent@ == r.default_parent@,
            r.probe is None,
            !r.saving,
            r.note is None,
    {
        let terminal = match config {
            Some(c) => c.terminal_command.clone(),
            None => String::new(),
        };
        let parent = match config {
            Some(c) => c.default_parent.clone(),
            None => String::new(),
        };
        Form {
            terminal_command: terminal.clone(),
            default_parent: parent.clone(),
            loaded_terminal: terminal,
            loaded_parent: parent,
            probe: None,
            saving: false,
            note: None,
        }
    }

    /// Something has been changed: there is something to write.
    pub fn is_dirty(&self) -> (r: bool)
        ensures
            r == (self.changes().len() > 0),
            r == (self.terminal_command@ != self.loaded_terminal@ || self.default_parent@
                != self.loaded_parent@),
    {
        let edits = self.edits();
        assert(edit_views(edits@).len() == edits@.len());
        !edits.is_empty()
    }

    /// The keys to write: only those the user changed.
    pub fn edits(&self) -> (r: Vec<Edit>)
        ensures
            edit_views(r@) == self.changes(),
    {
        let mut edits: Vec<Edit> = Vec::new();
        if self.terminal_command != self.loaded_terminal {
            edits.push(
                Edit {
                    key: ConfigKey::TerminalCommand,
                    value: trim(self.terminal_command.as_str()).to_owned(),
                },
            );
        }
        if self.default_parent != self.loaded_parent {
            edits.push(
                Edit {
                    key: ConfigKey::WorktreesDefaultParent,
                    value: trim(self.default_parent.as_str()).to_owned(),
                },
            );
        }
        assert(edit_views(edits@) =~= self.changes());
        edits
    }

    /// Why the form cannot be saved yet, if it cannot: what splitting the
    /// terminal command into arguments said.
    pub fn problem(&self, split: &Result<(), String>) -> (r: Option<String>)
        ensures
            text_view(r) == (match *split {
                Ok(_) => None,
                Err(error) => Some(error@),
            }),
    {
        match split {
            Ok(_) => None,
            Err(error) => Some(error.clone()),
        }
    }

    /// Takes the file's values as what was loaded. Where a save is landing, the
    /// fields take them over too; otherwise what is being typed stays.
    pub fn reloaded(&mut self, config: &Config)
        ensures
            *final(self) == old(self).with_baseline(*config),
            old(self).saving ==> final(self).changes().len() == 0,
    {
        self.loaded_terminal = config.terminal_command.clone();
        self.loaded_parent = config.default_parent.clone();
        if !self.saving {
            return;
        }
        self.terminal_command = self.loaded_terminal.clone();
        self.default_parent = self.loaded_parent.clone();
        self.saving = false;
    }

    /// The probe's answer, if it belongs to what is in the field right now.
    pub fn current_probe(&self) -> (r: Option<&Probe>)
        ensures
            r == (match self.probe {
                Some(probe) => if probe.command@ == self.terminal_command@ {
                    Some(&probe)
                } else {
                    None
                },
                None => None,
            }),
    {
        match &self.probe {
            Some(probe) => if probe.command == self.terminal_command {
                Some(probe)
            } else {
                None
            },
            None => None,
        }
    }

    /// The form can be saved: something changed, nothing is wrong, and no save
    /// is on its way.
    pub open spec fn savable(self, problem: Option<String>) -> bool {
        self.changes().len() > 0 && problem is None && !self.saving
    }

    /// Presses the save button. True where that starts a save.
    pub fn save(&mut self, problem: &Option<String>) -> (r: bool)
        ensures
            r == old(self).savable(*problem),
            r ==> *final(self) == (Form { saving: true, note: None, ..*old(self) }),
            !r ==> *final(self) == *old(self),
    {
        if self.is_dirty() && problem.is_none() && !self.saving {
            self.saving = true;
            self.note = None;
            true
        } else {
            false
        }
    }

    /// The line beside the save button, and how it is to be taken: what is
    /// wrong, then the save on its way, then unsaved changes, then the last
    /// confirmation.
    pub fn status_line(&self, problem: &Option<String>) -> (r: (String, Tone))
        ensures
            (r.0@, r.1) == (match *problem {
                Some(text) => (text@, Tone::Danger),
                None => if self.saving {
                    ("Saving…"@, Tone::Muted)
                } else if self.changes().len() > 0 {
                    ("Unsaved changes"@, Tone::Warning)
                } else {
                    match self.note {
                        Some(note) => (note@, Tone::Muted),
                        None => (
                            "Edits are written key by key; your comments stay."@,
                            Tone::Faint,
                        ),
                    }
                },
            }),
    {
        match problem {
            Some(text) => (text.clone(), Tone::Danger),
            None => if self.saving {
                ("Saving…".to_owned(), Tone::Muted)
            } else if self.is_dirty() {
                ("Unsaved changes".to_owned(), Tone::Warning)
            } else {
                match &self.note {
                    Some(note) => (note.clone(), Tone::Muted),
                    None => (
                        "Edits are written key by key; your comments stay.".to_owned(),
                        Tone::Faint,
                    ),
                }
            },
        }
    }

    /// What is said of the template's program.
    pub fn probe_line(&self) -> (r: (String, Tone))
        ensures
            (r.0@, r.1) == (match self.probe {
                Some(probe) if probe.command@ == self.terminal_command@ => if probe.found {
                    (probe.program@ + " is on PATH"@, Tone::Good)
                } else {
                    (probe.program@ + " was not found on PATH"@, Tone::Danger)
                },
                _ => ("checking the executable…"@, Tone::Faint),
            }),
    {
        match self.current_probe() {
            Some(probe) => {
                let mut line = probe.program.clone();
                if probe.found {
                    line.append(" is on PATH");
                    (line, Tone::Good)
                } else {
                    line.append(" was not found on PATH");
                    (line, Tone::Danger)
                }
            },
            None => ("checking the executable…".to_owned(), Tone::Faint),
        }
    }
}

/// What the user did in the pane in one frame. What was typed is in the form
/// already.
#[derive(Debug, Clone, Copy, PartialEq, Eq, Structural)]
pub struct Frame {
    /// The terminal command was typed into.
    pub command_typed: bool,
    pub detect: bool,
    /// The default parent was typed into.
    pub parent_typed: bool,
    pub browse: bool,
    pub save: bool,
    pub open_file: bool,
    /// The path of the configuration file was copied.
    pub copied: bool,
}

/// What one frame of the pane comes to. Typing takes the last confirmation away,
/// a save that can start does start, and of several clicks the lowest one in the
/// pane counts.
pub fn body(form: &mut Form, frame: Frame, split: &Result<(), String>) -> (r: Option<Action>)
    ensures
        ({
            let saves = frame.save && split is Ok && old(form).changes().len() > 0
                && !old(form).saving;
            &&& *final(form) == (Form {
                saving: old(form).saving || saves,
                note: final(form).note,
                ..*old(form)
            })
            &&& text_view(final(form).note) == (if frame.copied {
                Some("Copied the path."@)
            } else if frame.command_typed || frame.parent_typed || saves {
                None
            } else {
                text_view(old(form).note)
            })
            &&& r == (if frame.open_file {
                Some(Action::OpenConfigFile)
            } else if saves {
                Some(Action::Save)
            } else if frame.browse {
                Some(Action::BrowseWorktreeParent)
            } else if frame.detect {
                Some(Action::DetectTerminal)
            } else if frame.command_typed {
                Some(Action::Probe(old(form).terminal_command))
            } else {
                None
            })
        }),
{
    let mut action = None;
    if frame.command_typed {
        form.note = None;
        action = Some(Action::Probe(form.terminal_command.clone()));
    }
    if frame.detect {
        action = Some(Action::DetectTerminal);
    }
    if frame.parent_typed {
        form.note = None;
    }
    if frame.browse {
        action = Some(Action::BrowseWorktreeParent);
    }
    let problem = form.problem(split);
    if frame.save && form.save(&problem) {
        action = Some(Action::Save);
    }
    if frame.open_file {
        action = Some(Action::OpenConfigFile);
    }
    if frame.copied {
        form.note = Some("Copied the path.".to_owned());
    }
    action
}

/// The hint in the field of the default parent.
pub fn hint_parent(home: Option<&str>) -> (r: String)
    ensures
        r@ == (match home {
            Some(home) => joined_path(home@, "worktrees"@),
            None => "/home/you/worktrees"@,
        }),
{
    match home {
        Some(home) => join_path(home, "worktrees"),
        None => "/home/you/worktrees".to_owned(),
    }
}

}
