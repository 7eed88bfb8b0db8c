//! The command a keyboard shortcut is bound to: it shows or hides the window, or
//! opens the worktree with a number.
use vstd::prelude::*;
use vstd::string::*;

use crate::model::MAX_SLOT;
use crate::text::{begins_with, decimal, parse, parsed, reading_undoes_writing, starts_with};

verus! {

/// What is said of the command a keyboard shortcut is bound to.
pub const USAGE: &'static str = "\
grove toggle — bring Grove, or one numbered worktree, to hand

Usage:
  grove toggle          start Grove, or close the running one
  grove toggle <1-9>    open the session of the worktree carrying that number

Give a worktree its number in Grove: select the row and press Alt+<digit>,
or use “Number for `grove toggle`” in its context menu. Alt+<same digit>
takes it off again.
The numbers live in state.toml and are only labels — they never name
anything git or tmux knows about.
";

/// Why a command line was rejected.
#[derive(Debug, Clone, PartialEq, Eq)]
pub enum ArgsError {
    BadSlot(String),
    Unexpected(String),
    Unknown(String),
}

impl ArgsError {
    /// What is said of the error.
    pub fn message(&self) -> (r: String)
        ensures
            r@ == (match *self {
                ArgsError::BadSlot(arg) => "`"@ + arg@
                    + "` is not a number a worktree can carry: expected 1–9"@,
                ArgsError::Unexpected(arg) => "unexpected argument `"@ + arg@ + "`"@,
                ArgsError::Unknown(arg) => "unknown option `"@ + arg@ + "`"@,
            }),
    {
        match self {
            ArgsError::BadSlot(arg) => {
                let mut text = "`".to_owned();
                text.append(arg.as_str());
                text.append("` is not a number a worktree can carry: expected 1–9");
                text
            },
            ArgsError::Unexpected(arg) => {
                let mut text = "unexpected argument `".to_owned();
                text.append(arg.as_str());
                text.append("`");
                text
            },
            ArgsError::Unknown(arg) => {
                let mut text = "unknown option `".to_owned();
                text.append(arg.as_str());
                text.append("`");
                text
            },
        }
    }
}

/// The number that is written there, where a worktree can carry it.
pub open spec fn slot_of(arg: Seq<char>) -> Option<u8> {
    match parsed(arg, MAX_SLOT as nat) {
        Some(n) => if n >= 1 {
            Some(n as u8)
        } else {
            None
        },
        None => None,
    }
}

/// The number that is written there, where a worktree can carry it.
pub fn parse_slot(arg: &str) -> (r: Option<u8>)
    ensures
        r == slot_of(arg@),
        r matches Some(n) ==> 1 <= n <= MAX_SLOT,
{
    match parse(arg, MAX_SLOT as u64) {
        Some(n) => if n >= 1 {
            Some(n as u8)
        } else {
            None
        },
        None => None,
    }
}

/// What the arguments come to after `slot` was read: at most one number. The
/// first argument that is wrong ends it.
pub open spec fn read(args: Seq<String>, slot: Option<u8>) -> Result<Option<u8>, ArgsError>
    decreases args.len(),
{
    if args.len() == 0 {
        Ok(slot)
    } else if starts_with(args[0]@, "-"@) {
        Err(ArgsError::Unknown(args[0]))
    } else if slot is Some {
        Err(ArgsError::Unexpected(args[0]))
    } else {
        match slot_of(args[0]@) {
            Some(n) => read(args.skip(1), Some(n)),
            None => Err(ArgsError::BadSlot(args[0])),
        }
    }
}

/// Reads a command line: at most one number.
pub fn parse_args(args: &Vec<String>) -> (r: Result<Option<u8>, ArgsError>)
    ensures
        r == read(args@, None),
{
    let mut slot: Option<u8> = None;
    let mut i: usize = 0;
    assert(args@.skip(0) =~= args@);
    while i < args.len()
        invariant
            i <= args.len(),
            read(args@, None) == read(args@.skip(i as int), slot),
        decreases args.len() - i,
    {
        let arg = args[i].as_str();
        assert(args@.skip(i as int)[0] == args@[i as int]);
        assert(args@.skip(i as int).skip(1) =~= args@.skip(i + 1));
        if begins_with(arg, "-") {
            return Err(ArgsError::Unknown(args[i].clone()));
        }
        if slot.is_some() {
            return Err(ArgsError::Unexpected(args[i].clone()));
        }
        match parse_slot(arg) {
            Some(n) => {
                slot = Some(n);
            },
            None => {
                return Err(ArgsError::BadSlot(args[i].clone()));
            },
        }
        i += 1;
    }
    Ok(slot)
}

/// What is to happen once the toggle has been tried.
#[derive(Debug, Clone, Copy, PartialEq, Eq, Structural)]
pub enum Next {
    /// A running window took the command.
    Done,
    /// No window was listening: start one, and apply the toggle once it knows
    /// what exists.
    LaunchGui { slot: Option<u8> },
}

/// What is to happen, given whether a window took the command.
pub fn after_delivery(slot: Option<u8>, delivered: bool) -> (r: Next)
    ensures
        r == (if delivered {
            Next::Done
        } else {
            Next::LaunchGui { slot }
        }),
{
    if delivered {
        Next::Done
    } else {
        Next::LaunchGui { slot }
    }
}

/// A digit from one to nine is the number it writes, and no other number is one that
/// a worktree can carry.
pub proof fn a_digit_is_the_number_it_writes(n: u8, arg: Seq<char>)
    ensures
        1 <= n <= 9 ==> slot_of(decimal(n as nat)) == Some(n),
        slot_of(arg) matches Some(m) ==> 1 <= m <= 9,
        slot_of(decimal(0)) is None,
        n > 9 ==> slot_of(decimal(n as nat)) is None,
{
    reading_undoes_writing(n as nat, 255);
    reading_undoes_writing(0, 9);
    if n <= 9 {
        reading_undoes_writing(n as nat, 9);
    }
}

/// A command line that is right is empty, or one number; two of them, an option, or
/// what is no number is refused with the argument that is wrong.
pub proof fn a_command_line_is_at_most_one_number(args: Seq<String>, n: u8)
    ensures
        read(args, None) == Ok::<Option<u8>, ArgsError>(None) <==> args.len() == 0,
        read(args, None) == Ok::<Option<u8>, ArgsError>(Some(n)) <==> args.len() == 1
            && !starts_with(args[0]@, "-"@) && slot_of(args[0]@) == Some(n),
        args.len() > 0 && starts_with(args[0]@, "-"@) ==> read(args, None) == Err::<
            Option<u8>,
            ArgsError,
        >(ArgsError::Unknown(args[0])),
        args.len() > 0 && !starts_with(args[0]@, "-"@) && slot_of(args[0]@) is None ==> read(
            args,
            None,
        ) == Err::<Option<u8>, ArgsError>(ArgsError::BadSlot(args[0])),
        args.len() > 1 && !starts_with(args[0]@, "-"@) && slot_of(args[0]@) is Some && !starts_with(
            args[1]@,
            "-"@,
        ) ==> read(args, None) == Err::<Option<u8>, ArgsError>(ArgsError::Unexpected(args[1])),
{
    reveal_with_fuel(read, 3);
    if args.len() > 0 {
        let rest = args.skip(1);
        if args.len() > 1 {
            assert(rest[0] == args[1]);
        }
    }
}

}
