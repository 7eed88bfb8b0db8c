//! Which part of Grove a command line is for.
use vstd::prelude::*;
use vstd::string::*;

use crate::text::same;

verus! {

/// The part of Grove a command line is for.
#[derive(Debug, Clone, Copy, PartialEq, Eq, Structural)]
pub enum Part {
    /// The window.
    Gui,
    Help,
    Version,
    Notify,
    Toggle,
    Hooks,
    Serve,
    /// A command that only reads.
    Query,
    /// A command that acts on a worktree.
    Control,
    Unknown,
}

/// The part of Grove that the words of a command line name: the first one, and
/// for sessions the second as well.
pub open spec fn part_named(args: Seq<String>) -> Part {
    if args.len() == 0 {
        Part::Gui
    } else if args[0]@ == "-h"@ || args[0]@ == "--help"@ {
        Part::Help
    } else if args[0]@ == "-V"@ || args[0]@ == "--version"@ {
        Part::Version
    } else if args[0]@ == "notify"@ {
        Part::Notify
    } else if args[0]@ == "toggle"@ {
        Part::Toggle
    } else if args[0]@ == "hooks"@ {
        Part::Hooks
    } else if args[0]@ == "serve"@ {
        Part::Serve
    } else if args[0]@ == "snapshot"@ || args[0]@ == "project"@ || args[0]@ == "worktree"@ {
        Part::Query
    } else if args[0]@ == "agent"@ || args[0]@ == "wait"@ {
        Part::Control
    } else if args[0]@ == "session"@ {
        if args.len() >= 2 && args[1]@ == "list"@ {
            Part::Query
        } else {
            Part::Control
        }
    } else {
        Part::Unknown
    }
}

/// The part of Grove a command line is for.
pub fn part(args: &Vec<String>) -> (r: Part)
    ensures
        r == part_named(args@),
{
    if args.is_empty() {
        return Part::Gui;
    }
    let word = args[0].as_str();
    if same(word, "-h") || same(word, "--help") {
        Part::Help
    } else if same(word, "-V") || same(word, "--version") {
        Part::Version
    } else if same(word, "notify") {
        Part::Notify
    } else if same(word, "toggle") {
        Part::Toggle
    } else if same(word, "hooks") {
        Part::Hooks
    } else if same(word, "serve") {
        Part::Serve
    } else if same(word, "snapshot") || same(word, "project") || same(word, "worktree") {
        Part::Query
    } else if same(word, "agent") || same(word, "wait") {
        Part::Control
    } else if same(word, "session") {
        if args.len() >= 2 && same(args[1].as_str(), "list") {
            Part::Query
        } else {
            Part::Control
        }
    } else {
        Part::Unknown
    }
}

/// Each part of Grove goes by its own words: what is asked of sessions is a question
/// where it lists them, and an order otherwise.
pub proof fn each_word_names_its_part(args: Seq<String>)
    requires
        args.len() > 0,
    ensures
        args[0]@ == "notify"@ ==> part_named(args) == Part::Notify,
        args[0]@ == "toggle"@ ==> part_named(args) == Part::Toggle,
        args[0]@ == "hooks"@ ==> part_named(args) == Part::Hooks,
        args[0]@ == "serve"@ ==> part_named(args) == Part::Serve,
        args[0]@ == "agent"@ || args[0]@ == "wait"@ ==> part_named(args) == Part::Control,
        args[0]@ == "project"@ || args[0]@ == "worktree"@ || args[0]@ == "snapshot"@
            ==> part_named(args) == Part::Query,
        args[0]@ == "session"@ ==> part_named(args) == (if args.len() >= 2 && args[1]@ == "list"@ {
            Part::Query
        } else {
            Part::Control
        }),
        args[0]@ == "--help"@ ==> part_named(args) == Part::Help,
        args[0]@ == "--version"@ ==> part_named(args) == Part::Version,
{
    reveal_strlit("-h");
    reveal_strlit("--help");
    reveal_strlit("-V");
    reveal_strlit("--version");
    reveal_strlit("notify");
    reveal_strlit("toggle");
    reveal_strlit("hooks");
    reveal_strlit("serve");
    reveal_strlit("snapshot");
    reveal_strlit("project");
    reveal_strlit("worktree");
    reveal_strlit("agent");
    reveal_strlit("wait");
    reveal_strlit("session");
    assert("-h"@.len() == 2 && "-V"@.len() == 2 && "--help"@.len() == 6 && "--version"@.len() == 9);
    assert("-h"@[0] == '-' && "-V"@[0] == '-' && "--help"@[0] == '-' && "--version"@[0] == '-');
    assert("notify"@.len() == 6 && "toggle"@.len() == 6 && "hooks"@.len() == 5 && "serve"@.len()
        == 5);
    assert("notify"@[0] == 'n' && "toggle"@[0] == 't' && "hooks"@[0] == 'h' && "serve"@[0] == 's');
    assert("snapshot"@.len() == 8 && "project"@.len() == 7 && "worktree"@.len() == 8);
    assert("snapshot"@[0] == 's' && "project"@[0] == 'p' && "worktree"@[0] == 'w');
    assert("agent"@.len() == 5 && "wait"@.len() == 4 && "session"@.len() == 7);
    assert("agent"@[0] == 'a' && "session"@[0] == 's');
}

}
