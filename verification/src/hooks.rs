//! The command that puts Grove's hooks into an agent's settings, and what it
//! says.
use vstd::prelude::*;
use vstd::string::*;

use crate::text::{join_words, joined_words, same};
use crate::workers::HookChange;

verus! {

/// What is said of the command that installs the hooks.
pub const USAGE: &'static str = "\
grove hooks — Grove's hooks in the agent's settings

Usage:
  grove hooks status      show whether the hooks are installed
  grove hooks install     add them, backing the file up first
  grove hooks uninstall   remove them again
  grove hooks print       show what would be added, changing nothing

The hooks all run `grove notify --hook`, which reads the event the agent
sends it and reports the session's status, the agent's own message and the
conversation id to a running Grove.

The agent reads its settings at startup: restart it after installing.
";

/// What the command is asked for.
#[derive(Debug, PartialEq, Eq)]
pub enum HookCommand {
    Help,
    Status,
    Install,
    Uninstall,
    Print,
    Unknown(String),
}

/// What a command line asks for. Without a word it asks for the status.
pub fn run(args: &Vec<String>) -> (r: HookCommand)
    ensures
        r == (if args@.len() == 0 {
            HookCommand::Status
        } else if args@[0]@ == "-h"@ || args@[0]@ == "--help"@ || args@[0]@ == "help"@ {
            HookCommand::Help
        } else if args@[0]@ == "status"@ {
            HookCommand::Status
        } else if args@[0]@ == "install"@ {
            HookCommand::Install
        } else if args@[0]@ == "uninstall"@ {
            HookCommand::Uninstall
        } else if args@[0]@ == "print"@ {
            HookCommand::Print
        } else {
            HookCommand::Unknown(args@[0])
        }),
{
    if args.is_empty() {
        return HookCommand::Status;
    }
    let word = args[0].as_str();
    if same(word, "-h") || same(word, "--help") || same(word, "help") {
        HookCommand::Help
    } else if same(word, "status") {
        HookCommand::Status
    } else if same(word, "install") {
        HookCommand::Install
    } else if same(word, "uninstall") {
        HookCommand::Uninstall
    } else if same(word, "print") {
        HookCommand::Print
    } else {
        HookCommand::Unknown(args[0].clone())
    }
}

/// The text is one of those listed.
pub open spec fn listed(texts: Seq<String>, text: Seq<char>) -> bool {
    exists|i: int| 0 <= i < texts.len() && (#[trigger] texts[i])@ == text
}

fn is_listed(texts: &Vec<String>, text: &String) -> (r: bool)
    ensures
        r == listed(texts@, text@),
{
    let mut i: usize = 0;
    while i < texts.len()
        invariant
            i <= texts.len(),
            forall|k: int| 0 <= k < i ==> (#[trigger] texts@[k])@ != text@,
        decreases texts.len() - i,
    {
        if texts[i] == *text {
            return true;
        }
        i += 1;
    }
    false
}

/// The events that have no hook yet, in order.
pub open spec fn missing_of(events: Seq<String>, installed: Seq<String>) -> Seq<String>
    decreases events.len(),
{
    if events.len() == 0 {
        Seq::empty()
    } else {
        let before = missing_of(events.drop_last(), installed);
        if listed(installed, events.last()@) {
            before
        } else {
            before.push(events.last())
        }
    }
}

/// The events that have no hook yet, in order.
pub fn missing(change: &HookChange, events: &Vec<String>) -> (r: Vec<String>)
    ensures
        r@ == missing_of(events@, change.installed@),
{
    let mut out: Vec<String> = Vec::new();
    let mut i: usize = 0;
    assert(events@.subrange(0, 0) =~= Seq::<String>::empty());
    while i < events.len()
        invariant
            i <= events.len(),
            out@ == missing_of(events@.subrange(0, i as int), change.installed@),
        decreases events.len() - i,
    {
        assert(events@.subrange(0, i + 1).drop_last() =~= events@.subrange(0, i as int));
        if !is_listed(&change.installed, &events[i]) {
            out.push(events[i].clone());
        }
        i += 1;
    }
    assert(events@.subrange(0, i as int) =~= events@);
    out
}

/// What was done to the hooks.
#[derive(Debug, Clone, Copy, PartialEq, Eq, Structural)]
pub enum Done {
    Status,
    Install,
    Uninstall,
}

/// The line that says where the hooks stand.
pub open spec fn standing(
    done: Done,
    change: HookChange,
    hook_command: Seq<char>,
    events: Seq<String>,
) -> Seq<char> {
    let on = joined_words(change.installed@, ", "@);
    let absent = missing_of(events, change.installed@);
    match done {
        Done::Install => if change.changed {
            "installed `"@ + hook_command + "` on "@ + on
        } else {
            "already installed on "@ + on
        },
        Done::Uninstall => if change.changed {
            "removed Grove's hooks"@
        } else {
            "nothing of Grove's was there"@
        },
        Done::Status => if absent.len() == 0 {
            "installed on "@ + on
        } else if change.installed@.len() == 0 {
            "not installed — run `grove hooks install`"@
        } else {
            "partly installed: "@ + on + " (missing "@ + joined_words(absent, ", "@) + ")"@
        },
    }
}

/// What is said of the hooks: the file, where it was backed up to, where the
/// hooks stand, and that the agent must be started again for new ones.
pub open spec fn report_lines(
    done: Done,
    change: HookChange,
    hook_command: Seq<char>,
    events: Seq<String>,
) -> Seq<Seq<char>> {
    let file = seq![change.path@];
    let backup = match change.backup {
        Some(path) => file.push("backed up to "@ + path@),
        None => file,
    };
    let stands = backup.push(standing(done, change, hook_command, events));
    if change.changed && done == Done::Install {
        stands.push("restart "@ + change.agent@ + " for them to take effect"@)
    } else {
        stands
    }
}

fn line(before: &str, inner: &str) -> (r: String)
    ensures
        r@ == before@ + inner@,
{
    let mut text = before.to_owned();
    text.append(inner);
    text
}

fn standing_line(done: Done, change: &HookChange, hook_command: &str, events: &Vec<String>) -> (r:
    String)
    ensures
        r@ == standing(done, *change, hook_command@, events@),
{
    let on = join_words(&change.installed, ", ");
    let absent = missing(change, events);
    match done {
        Done::Install => if change.changed {
            let mut text = line("installed `", hook_command);
            text.append("` on ");
            text.append(on.as_str());
            text
        } else {
            line("already installed on ", on.as_str())
        },
        Done::Uninstall => if change.changed {
            "removed Grove's hooks".to_owned()
        } else {
            "nothing of Grove's was there".to_owned()
        },
        Done::Status => if absent.is_empty() {
            line("installed on ", on.as_str())
        } else if change.installed.is_empty() {
            "not installed — run `grove hooks install`".to_owned()
        } else {
            let mut text = line("partly installed: ", on.as_str());
            text.append(" (missing ");
            text.append(join_words(&absent, ", ").as_str());
            text.append(")");
            text
        },
    }
}

/// What is said of the hooks, line by line.
pub fn report(done: Done, change: &HookChange, hook_command: &str, events: &Vec<String>) -> (r: Vec<
    String,
>)
    ensures
        crate::notify::texts(r@) == report_lines(done, *change, hook_command@, events@),
{
    let mut lines: Vec<String> = Vec::new();
    lines.push(change.path.clone());
    if let Some(path) = &change.backup {
        lines.push(line("backed up to ", path.as_str()));
    }
    lines.push(standing_line(done, change, hook_command, events));
    if change.changed && done == Done::Install {
        let mut text = line("restart ", change.agent.as_str());
        text.append(" for them to take effect");
        lines.push(text);
    }
    assert(crate::notify::texts(lines@) =~= report_lines(done, *change, hook_command@, events@));
    lines
}

/// The events that are missing are those that were to have a hook and have none.
pub proof fn missing_events_have_no_hook(events: Seq<String>, installed: Seq<String>, event: String)
    ensures
        missing_of(events, installed).contains(event) <==> events.contains(event) && forall|k: int|
            0 <= k < installed.len() ==> (#[trigger] installed[k])@ != event@,
    decreases events.len(),
{
    if events.len() > 0 {
        let init = events.drop_last();
        missing_events_have_no_hook(init, installed, event);
        assert(events =~= init.push(events.last()));
        crate::text::contains_pushed(init, events.last(), event);
        crate::text::contains_pushed(missing_of(init, installed), events.last(), event);
        assert(listed(installed, event@) <==> !(forall|k: int|
            0 <= k < installed.len() ==> (#[trigger] installed[k])@ != event@));
    }
}

/// What is said names the file first and where the hooks stand after it; a copy that
/// was made is named between, and only new hooks ask for a restart, last.
pub proof fn a_report_of_hooks_names_the_file_first(
    done: Done,
    change: HookChange,
    hook_command: Seq<char>,
    events: Seq<String>,
)
    ensures
        ({
            let lines = report_lines(done, change, hook_command, events);
            let copied: int = if change.backup is Some {
                1
            } else {
                0
            };
            &&& lines[0] == change.path@
            &&& change.backup is Some ==> lines[1] == "backed up to "@ + change.backup->0@
            &&& lines[1 + copied] == standing(done, change, hook_command, events)
            &&& change.changed && done == Done::Install ==> lines.len() == 3 + copied
                && lines.last() == "restart "@ + change.agent@ + " for them to take effect"@
            &&& !(change.changed && done == Done::Install) ==> lines.len() == 2 + copied
        }),
{
}

}
