//! What an agent's hook, or a hand, reports of a session.
//!
//! A flag always beats what a hook delivers, and a hook may be silent where a
//! hand may not.
use vstd::prelude::*;
use vstd::string::*;

use crate::model::{copy_text, text_view, AttentionReason, SessionStatus};
use crate::notices::Notification;
use crate::text::{
    after_prefix, char_is_hex, chars_of, is_hex, parse, parsed, same, starts_with, trim, trimmed,
};

verus! {

/// What is said of the command that reports a status.
pub const USAGE: &'static str = "\
grove notify — report a session's status to Grove

Usage:
  grove notify --state <state> [options]
  grove notify --hook [options]

Options:
  --state <state>       one of: idle, done, working, attention
  --reason <reason>     why the user is wanted: waiting, permission, blocked
                        or failed. Only meaningful with --state attention,
                        and rejected with any other state.
  --hook                read an agent's hook payload (JSON) on stdin and
                        take the state, message, conversation id and
                        transcript path from it. Explicit flags win.
  --session <id>        worktree id; defaults to $GROVE_SESSION, which every
                        Grove-managed tmux session exports
  --message <text>      optional one-line summary shown with the status
  --window <index>      the tmux window this is about; defaults to the one
                        holding $TMUX_PANE, so the report marks the row that
                        raised it rather than the whole worktree
  --agent-session <id>  the agent's own conversation id, so Grove can offer to
                        resume it later
  --transcript <path>   absolute path to that conversation's transcript

Attention is sticky: it stays until you open the session. Reporting `idle`
or `working` does not clear it.

`done` is sticky too, but against silence rather than against you: it says
the work here finished and wants nobody, and it lasts until the session is
active again. It is the one thing Grove cannot work out for itself — a quiet
session that finished and one that never started look identical from tmux.

`grove hooks install` writes the agent's configuration for --hook.
";

/// Everything needed to send one report.
#[derive(Debug, Clone, PartialEq, Eq)]
pub struct NotifyArgs {
    pub worktree_id: String,
    pub state: SessionStatus,
    pub reason: Option<AttentionReason>,
    pub message: Option<String>,
    pub window: Option<u32>,
    pub agent_session: Option<String>,
    pub transcript: Option<String>,
}

/// The command line before anything else has been consulted.
#[derive(Debug, Clone, PartialEq, Eq)]
pub struct Options {
    /// A hook delivers what it has to say on the standard input.
    pub hook: bool,
    pub state: Option<SessionStatus>,
    pub reason: Option<AttentionReason>,
    pub session: Option<String>,
    pub message: Option<String>,
    pub window: Option<u32>,
    pub agent_session: Option<String>,
    pub transcript: Option<String>,
}

pub struct OptionsView {
    pub hook: bool,
    pub state: Option<SessionStatus>,
    pub reason: Option<AttentionReason>,
    pub session: Option<Seq<char>>,
    pub message: Option<Seq<char>>,
    pub window: Option<u32>,
    pub agent_session: Option<Seq<char>>,
    pub transcript: Option<Seq<char>>,
}

impl View for Options {
    type V = OptionsView;

    open spec fn view(&self) -> OptionsView {
        OptionsView {
            hook: self.hook,
            state: self.state,
            reason: self.reason,
            session: text_view(self.session),
            message: text_view(self.message),
            window: self.window,
            agent_session: text_view(self.agent_session),
            transcript: text_view(self.transcript),
        }
    }
}

/// Why a command line was rejected.
#[derive(Debug, Clone, PartialEq, Eq)]
pub enum ArgsError {
    MissingState,
    BadState(String),
    BadReason(String),
    /// A reason was given for a state that needs none: the state's name.
    ReasonWithoutAttention(&'static str),
    MissingSession,
    BadSession(String),
    BadWindow(String),
    MissingValue(String),
    Unknown(String),
    HookNeedsStdin,
}

pub enum ArgsErrorView {
    MissingState,
    BadState(Seq<char>),
    BadReason(Seq<char>),
    ReasonWithoutAttention(Seq<char>),
    MissingSession,
    BadSession(Seq<char>),
    BadWindow(Seq<char>),
    MissingValue(Seq<char>),
    Unknown(Seq<char>),
    HookNeedsStdin,
}

impl View for ArgsError {
    type V = ArgsErrorView;

    open spec fn view(&self) -> ArgsErrorView {
        match *self {
            ArgsError::MissingState => ArgsErrorView::MissingState,
            ArgsError::BadState(raw) => ArgsErrorView::BadState(raw@),
            ArgsError::BadReason(raw) => ArgsErrorView::BadReason(raw@),
            ArgsError::ReasonWithoutAttention(state) => ArgsErrorView::ReasonWithoutAttention(
                state@,
            ),
            ArgsError::MissingSession => ArgsErrorView::MissingSession,
            ArgsError::BadSession(id) => ArgsErrorView::BadSession(id@),
            ArgsError::BadWindow(raw) => ArgsErrorView::BadWindow(raw@),
            ArgsError::MissingValue(name) => ArgsErrorView::MissingValue(name@),
            ArgsError::Unknown(arg) => ArgsErrorView::Unknown(arg@),
            ArgsError::HookNeedsStdin => ArgsErrorView::HookNeedsStdin,
        }
    }
}

impl ArgsErrorView {
    /// What is said of the error.
    pub open spec fn text(self) -> Seq<char> {
        match self {
            ArgsErrorView::MissingState => "--state is required"@,
            ArgsErrorView::BadState(raw) => "`"@ + raw
                + "` is not a state: expected idle, done, working or attention"@,
            ArgsErrorView::BadReason(raw) => "`"@ + raw
                + "` is not a reason: expected waiting, permission, blocked or failed"@,
            ArgsErrorView::ReasonWithoutAttention(state) =>
                "--reason explains why the user is wanted; it needs --state attention, not `"@
                + state + "`"@,
            ArgsErrorView::MissingSession =>
                "no session: pass --session <id> or run inside a Grove tmux session"@,
            ArgsErrorView::BadSession(id) => "`"@ + id
                + "` is not a worktree id: expected 6 hex characters"@,
            ArgsErrorView::BadWindow(raw) => "`"@ + raw + "` is not a window index"@,
            ArgsErrorView::MissingValue(name) => name + " needs a value"@,
            ArgsErrorView::Unknown(arg) => "unknown option `"@ + arg + "`"@,
            ArgsErrorView::HookNeedsStdin =>
                "--hook reads a JSON payload on stdin; it is not meant to be run by hand"@,
        }
    }
}

fn wrapped(before: &str, inner: &str, after: &str) -> (r: String)
    ensures
        r@ == before@ + inner@ + after@,
{
    let mut text = before.to_owned();
    text.append(inner);
    text.append(after);
    text
}

impl ArgsError {
    /// What is said of the error.
    pub fn message(&self) -> (r: String)
        ensures
            r@ == self@.text(),
    {
        match self {
            ArgsError::MissingState => "--state is required".to_owned(),
            ArgsError::BadState(raw) => wrapped(
                "`",
                raw.as_str(),
                "` is not a state: expected idle, done, working or attention",
            ),
            ArgsError::BadReason(raw) => wrapped(
                "`",
                raw.as_str(),
                "` is not a reason: expected waiting, permission, blocked or failed",
            ),
            ArgsError::ReasonWithoutAttention(state) => wrapped(
                "--reason explains why the user is wanted; it needs --state attention, not `",
                state,
                "`",
            ),
            ArgsError::MissingSession =>
                "no session: pass --session <id> or run inside a Grove tmux session".to_owned(),
            ArgsError::BadSession(id) => wrapped(
                "`",
                id.as_str(),
                "` is not a worktree id: expected 6 hex characters",
            ),
            ArgsError::BadWindow(raw) => wrapped("`", raw.as_str(), "` is not a window index"),
            ArgsError::MissingValue(name) => {
                let mut text = name.clone();
                text.append(" needs a value");
                text
            },
            ArgsError::Unknown(arg) => wrapped("unknown option `", arg.as_str(), "`"),
            ArgsError::HookNeedsStdin =>
                "--hook reads a JSON payload on stdin; it is not meant to be run by hand".to_owned(),
        }
    }
}

/// The name of a status.
pub open spec fn status_label(status: SessionStatus) -> Seq<char> {
    match status {
        SessionStatus::Idle => "idle"@,
        SessionStatus::Working => "working"@,
        SessionStatus::Done => "done"@,
        SessionStatus::Attention => "attention"@,
    }
}

/// The name of a reason.
pub open spec fn reason_label(reason: AttentionReason) -> Seq<char> {
    match reason {
        AttentionReason::WaitingInput => "waiting"@,
        AttentionReason::Permission => "permission"@,
        AttentionReason::Blocked => "blocked"@,
        AttentionReason::Failed => "failed"@,
    }
}

/// The status of this name.
pub open spec fn status_named(raw: Seq<char>) -> Option<SessionStatus> {
    if raw == "idle"@ {
        Some(SessionStatus::Idle)
    } else if raw == "working"@ {
        Some(SessionStatus::Working)
    } else if raw == "done"@ {
        Some(SessionStatus::Done)
    } else if raw == "attention"@ {
        Some(SessionStatus::Attention)
    } else {
        None
    }
}

/// The reason of this name.
pub open spec fn reason_named(raw: Seq<char>) -> Option<AttentionReason> {
    if raw == "waiting"@ {
        Some(AttentionReason::WaitingInput)
    } else if raw == "permission"@ {
        Some(AttentionReason::Permission)
    } else if raw == "blocked"@ {
        Some(AttentionReason::Blocked)
    } else if raw == "failed"@ {
        Some(AttentionReason::Failed)
    } else {
        None
    }
}

impl SessionStatus {
    /// The status of this name.
    pub fn parse(raw: &str) -> (r: Option<SessionStatus>)
        ensures
            r == status_named(raw@),
    {
        if same(raw, "idle") {
            Some(SessionStatus::Idle)
        } else if same(raw, "working") {
            Some(SessionStatus::Working)
        } else if same(raw, "done") {
            Some(SessionStatus::Done)
        } else if same(raw, "attention") {
            Some(SessionStatus::Attention)
        } else {
            None
        }
    }

    /// The name of the status.
    pub fn label(self) -> (r: &'static str)
        ensures
            r@ == status_label(self),
    {
        match self {
            SessionStatus::Idle => "idle",
            SessionStatus::Working => "working",
            SessionStatus::Done => "done",
            SessionStatus::Attention => "attention",
        }
    }
}

impl AttentionReason {
    /// The reason of this name.
    pub fn parse(raw: &str) -> (r: Option<AttentionReason>)
        ensures
            r == reason_named(raw@),
    {
        if same(raw, "waiting") {
            Some(AttentionReason::WaitingInput)
        } else if same(raw, "permission") {
            Some(AttentionReason::Permission)
        } else if same(raw, "blocked") {
            Some(AttentionReason::Blocked)
        } else if same(raw, "failed") {
            Some(AttentionReason::Failed)
        } else {
            None
        }
    }
}

/// A flag that takes a value.
#[derive(Debug, Clone, Copy, PartialEq, Eq, Structural)]
pub enum Flag {
    State,
    Reason,
    Session,
    Message,
    Window,
    AgentSession,
    Transcript,
}

impl Flag {
    pub open spec fn spelling(self) -> Seq<char> {
        match self {
            Flag::State => "--state"@,
            Flag::Reason => "--reason"@,
            Flag::Session => "--session"@,
            Flag::Message => "--message"@,
            Flag::Window => "--window"@,
            Flag::AgentSession => "--agent-session"@,
            Flag::Transcript => "--transcript"@,
        }
    }

    fn name(self) -> (r: &'static str)
        ensures
            r@ == self.spelling(),
    {
        match self {
            Flag::State => "--state",
            Flag::Reason => "--reason",
            Flag::Session => "--session",
            Flag::Message => "--message",
            Flag::Window => "--window",
            Flag::AgentSession => "--agent-session",
            Flag::Transcript => "--transcript",
        }
    }
}

/// The flag an argument names whose value is the next argument.
pub open spec fn separate(arg: Seq<char>) -> Option<Flag> {
    if arg == "--state"@ || arg == "-s"@ {
        Some(Flag::State)
    } else if arg == "--reason"@ || arg == "-r"@ {
        Some(Flag::Reason)
    } else if arg == "--session"@ {
        Some(Flag::Session)
    } else if arg == "--message"@ || arg == "-m"@ {
        Some(Flag::Message)
    } else if arg == "--window"@ || arg == "-w"@ {
        Some(Flag::Window)
    } else if arg == "--agent-session"@ {
        Some(Flag::AgentSession)
    } else if arg == "--transcript"@ {
        Some(Flag::Transcript)
    } else {
        None
    }
}

pub open spec fn rest_after(arg: Seq<char>, prefix: Seq<char>) -> Seq<char> {
    arg.subrange(prefix.len() as int, arg.len() as int)
}

/// The flag and the value of an argument that holds both.
pub open spec fn joined(arg: Seq<char>) -> Option<(Flag, Seq<char>)> {
    if starts_with(arg, "--state="@) {
        Some((Flag::State, rest_after(arg, "--state="@)))
    } else if starts_with(arg, "--reason="@) {
        Some((Flag::Reason, rest_after(arg, "--reason="@)))
    } else if starts_with(arg, "--session="@) {
        Some((Flag::Session, rest_after(arg, "--session="@)))
    } else if starts_with(arg, "--message="@) {
        Some((Flag::Message, rest_after(arg, "--message="@)))
    } else if starts_with(arg, "--window="@) {
        Some((Flag::Window, rest_after(arg, "--window="@)))
    } else if starts_with(arg, "--agent-session="@) {
        Some((Flag::AgentSession, rest_after(arg, "--agent-session="@)))
    } else if starts_with(arg, "--transcript="@) {
        Some((Flag::Transcript, rest_after(arg, "--transcript="@)))
    } else {
        None
    }
}

/// The index of a window that is written there.
pub open spec fn window_of(raw: Seq<char>) -> Option<u32> {
    match parsed(trimmed(raw), u32::MAX as nat) {
        Some(n) => Some(n as u32),
        None => None,
    }
}

impl OptionsView {
    pub open spec fn none() -> OptionsView {
        OptionsView {
            hook: false,
            state: None,
            reason: None,
            session: None,
            message: None,
            window: None,
            agent_session: None,
            transcript: None,
        }
    }

    /// The options with the flag's value taken in.
    pub open spec fn taking(self, flag: Flag, raw: Seq<char>) -> Result<OptionsView, ArgsErrorView> {
        match flag {
            Flag::State => match status_named(raw) {
                Some(state) => Ok(OptionsView { state: Some(state), ..self }),
                None => Err(ArgsErrorView::BadState(raw)),
            },
            Flag::Reason => match reason_named(raw) {
                Some(reason) => Ok(OptionsView { reason: Some(reason), ..self }),
                None => Err(ArgsErrorView::BadReason(raw)),
            },
            Flag::Session => Ok(OptionsView { session: Some(raw), ..self }),
            Flag::Message => Ok(OptionsView { message: Some(raw), ..self }),
            Flag::Window => match window_of(raw) {
                Some(index) => Ok(OptionsView { window: Some(index), ..self }),
                None => Err(ArgsErrorView::BadWindow(raw)),
            },
            Flag::AgentSession => Ok(OptionsView { agent_session: Some(raw), ..self }),
            Flag::Transcript => Ok(OptionsView { transcript: Some(raw), ..self }),
        }
    }
}

/// What the arguments come to after these options: they are taken from the
/// left, and the first one that is wrong ends it. The value of a flag is taken
/// as it stands, whatever it looks like.
pub open spec fn read(args: Seq<Seq<char>>, options: OptionsView) -> Result<
    OptionsView,
    ArgsErrorView,
>
    decreases args.len(),
{
    if args.len() == 0 {
        Ok(options)
    } else if args[0] == "--hook"@ {
        read(args.skip(1), OptionsView { hook: true, ..options })
    } else {
        match separate(args[0]) {
            Some(flag) => if args.len() < 2 {
                Err(ArgsErrorView::MissingValue(flag.spelling()))
            } else {
                match options.taking(flag, args[1]) {
                    Ok(next) => read(args.skip(2), next),
                    Err(error) => Err(error),
                }
            },
            None => match joined(args[0]) {
                Some((flag, raw)) => match options.taking(flag, raw) {
                    Ok(next) => read(args.skip(1), next),
                    Err(error) => Err(error),
                },
                None => Err(ArgsErrorView::Unknown(args[0])),
            },
        }
    }
}

/// The arguments as characters.
pub open spec fn texts(args: Seq<String>) -> Seq<Seq<char>> {
    args.map_values(|arg: String| arg@)
}

/// What parsing came to, as views.
pub open spec fn options_outcome(r: Result<Options, ArgsError>) -> Result<
    OptionsView,
    ArgsErrorView,
> {
    match r {
        Ok(options) => Ok(options@),
        Err(error) => Err(error@),
    }
}

fn separate_flag(arg: &str) -> (r: Option<Flag>)
    ensures
        r == separate(arg@),
{
    if same(arg, "--state") || same(arg, "-s") {
        Some(Flag::State)
    } else if same(arg, "--reason") || same(arg, "-r") {
        Some(Flag::Reason)
    } else if same(arg, "--session") {
        Some(Flag::Session)
    } else if same(arg, "--message") || same(arg, "-m") {
        Some(Flag::Message)
    } else if same(arg, "--window") || same(arg, "-w") {
        Some(Flag::Window)
    } else if same(arg, "--agent-session") {
        Some(Flag::AgentSession)
    } else if same(arg, "--transcript") {
        Some(Flag::Transcript)
    } else {
        None
    }
}

fn try_joined<'a>(arg: &'a str, prefix: &str, flag: Flag) -> (r: Option<(Flag, &'a str)>)
    ensures
        r is Some <==> starts_with(arg@, prefix@),
        r matches Some(found) ==> found.0 == flag && found.1@ == rest_after(arg@, prefix@),
{
    match after_prefix(arg, prefix) {
        Some(raw) => {
            assert(raw@ =~= rest_after(arg@, prefix@));
            Some((flag, raw))
        },
        None => None,
    }
}

fn joined_flag(arg: &str) -> (r: Option<(Flag, &str)>)
    ensures
        (match r {
            Some((flag, raw)) => Some((flag, raw@)),
            None => None,
        }) == joined(arg@),
{
    if let Some(found) = try_joined(arg, "--state=", Flag::State) {
        Some(found)
    } else if let Some(found) = try_joined(arg, "--reason=", Flag::Reason) {
        Some(found)
    } else if let Some(found) = try_joined(arg, "--session=", Flag::Session) {
        Some(found)
    } else if let Some(found) = try_joined(arg, "--message=", Flag::Message) {
        Some(found)
    } else if let Some(found) = try_joined(arg, "--window=", Flag::Window) {
        Some(found)
    } else if let Some(found) = try_joined(arg, "--agent-session=", Flag::AgentSession) {
        Some(found)
    } else if let Some(found) = try_joined(arg, "--transcript=", Flag::Transcript) {
        Some(found)
    } else {
        None
    }
}

fn parse_window(raw: &str) -> (r: Result<u32, ArgsError>)
    ensures
        match window_of(raw@) {
            Some(index) => r == Ok::<u32, ArgsError>(index),
            None => r matches Err(error) && error@ == ArgsErrorView::BadWindow(raw@),
        },
{
    match parse(trim(raw), u32::MAX as u64) {
        Some(index) => Ok(index as u32),
        None => Err(ArgsError::BadWindow(raw.to_owned())),
    }
}

impl Default for Options {
    fn default() -> (r: Self)
        ensures
            r@ == OptionsView::none(),
    {
        Options {
            hook: false,
            state: None,
            reason: None,
            session: None,
            message: None,
            window: None,
            agent_session: None,
            transcript: None,
        }
    }
}

impl Options {
    fn take(self, flag: Flag, raw: &str) -> (r: Result<Options, ArgsError>)
        ensures
            options_outcome(r) == self@.taking(flag, raw@),
    {
        let mut options = self;
        match flag {
            Flag::State => match SessionStatus::parse(raw) {
                Some(state) => {
                    options.state = Some(state);
                },
                None => {
                    return Err(ArgsError::BadState(raw.to_owned()));
                },
            },
            Flag::Reason => match AttentionReason::parse(raw) {
                Some(reason) => {
                    options.reason = Some(reason);
                },
                None => {
                    return Err(ArgsError::BadReason(raw.to_owned()));
                },
            },
            Flag::Session => {
                options.session = Some(raw.to_owned());
            },
            Flag::Message => {
                options.message = Some(raw.to_owned());
            },
            Flag::Window => match parse_window(raw) {
                Ok(index) => {
                    options.window = Some(index);
                },
                Err(error) => {
                    return Err(error);
                },
            },
            Flag::AgentSession => {
                options.agent_session = Some(raw.to_owned());
            },
            Flag::Transcript => {
                options.transcript = Some(raw.to_owned());
            },
        }
        Ok(options)
    }
}

/// Reads a command line. Nothing outside the arguments is consulted.
pub fn parse_options(args: &Vec<String>) -> (r: Result<Options, ArgsError>)
    ensures
        options_outcome(r) == read(texts(args@), OptionsView::none()),
{
    let ghost all = texts(args@);
    let mut options = Options::default();
    let mut i: usize = 0;
    assert(all.skip(0) =~= all);
    while i < args.len()
        invariant
            i <= args.len(),
            all == texts(args@),
            read(all, OptionsView::none()) == read(all.skip(i as int), options@),
        decreases args.len() - i,
    {
        let arg = args[i].as_str();
        let ghost rest = all.skip(i as int);
        assert(rest[0] == arg@);
        assert(rest.skip(1) =~= all.skip(i + 1));
        if same(arg, "--hook") {
            options.hook = true;
            i += 1;
            continue;
        }
        match separate_flag(arg) {
            Some(flag) => {
                if i + 1 >= args.len() {
                    return Err(ArgsError::MissingValue(flag.name().to_owned()));
                }
                assert(rest[1] == args@[i + 1]@);
                assert(rest.skip(2) =~= all.skip(i + 2));
                options = match options.take(flag, args[i + 1].as_str()) {
                    Ok(next) => next,
                    Err(error) => {
                        return Err(error);
                    },
                };
                i += 2;
            },
            None => match joined_flag(arg) {
                Some((flag, raw)) => {
                    options = match options.take(flag, raw) {
                        Ok(next) => next,
                        Err(error) => {
                            return Err(error);
                        },
                    };
                    i += 1;
                },
                None => {
                    return Err(ArgsError::Unknown(args[i].clone()));
                },
            },
        }
    }
    assert(all.skip(i as int).len() == 0);
    Ok(options)
}

/// What a hook's payload can fill in.
#[derive(Debug, Clone, PartialEq, Eq)]
pub struct HookFields {
    pub state: Option<SessionStatus>,
    pub summary: Option<String>,
    pub agent_session: Option<String>,
    pub transcript: Option<String>,
}

/// The id can name a worktree: six hexadecimal digits.
pub open spec fn names_worktree(id: Seq<char>) -> bool {
    id.len() == 6 && forall|i: int| 0 <= i < id.len() ==> is_hex(#[trigger] id[i])
}

/// The id can name a worktree: six hexadecimal digits.
pub fn is_worktree_id(id: &str) -> (r: bool)
    ensures
        r == names_worktree(id@),
{
    let chars = chars_of(id);
    if chars.len() != 6 {
        return false;
    }
    let mut i: usize = 0;
    while i < chars.len()
        invariant
            i <= chars.len(),
            chars@ == id@,
            forall|k: int| 0 <= k < i ==> is_hex(#[trigger] id@[k]),
        decreases chars.len() - i,
    {
        if !char_is_hex(chars[i]) {
            assert(!is_hex(id@[i as int]));
            return false;
        }
        i += 1;
    }
    true
}

/// The first of the two that is there.
pub open spec fn either<T>(first: Option<T>, second: Option<T>) -> Option<T> {
    match first {
        Some(value) => Some(value),
        None => second,
    }
}

pub struct NotifyView {
    pub worktree_id: Seq<char>,
    pub state: SessionStatus,
    pub reason: Option<AttentionReason>,
    pub message: Option<Seq<char>>,
    pub window: Option<u32>,
    pub agent_session: Option<Seq<char>>,
    pub transcript: Option<Seq<char>>,
}

impl View for NotifyArgs {
    type V = NotifyView;

    open spec fn view(&self) -> NotifyView {
        NotifyView {
            worktree_id: self.worktree_id@,
            state: self.state,
            reason: self.reason,
            message: text_view(self.message),
            window: self.window,
            agent_session: text_view(self.agent_session),
            transcript: text_view(self.transcript),
        }
    }
}

pub struct HookView {
    pub state: Option<SessionStatus>,
    pub summary: Option<Seq<char>>,
    pub agent_session: Option<Seq<char>>,
    pub transcript: Option<Seq<char>>,
}

impl HookView {
    /// A payload that fills nothing in.
    pub open spec fn none() -> HookView {
        HookView { state: None, summary: None, agent_session: None, transcript: None }
    }
}

/// What a payload fills in; none fills nothing in.
pub open spec fn hook_view(payload: Option<&HookFields>) -> HookView {
    match payload {
        Some(p) => HookView {
            state: p.state,
            summary: text_view(p.summary),
            agent_session: text_view(p.agent_session),
            transcript: text_view(p.transcript),
        },
        None => HookView::none(),
    }
}

/// The report a command line comes to, with the session of the environment and
/// a hook's payload behind it. A flag beats both. `None` is nothing to report,
/// which only a hook may have.
pub open spec fn resolution(
    options: OptionsView,
    env_session: Option<Seq<char>>,
    payload: HookView,
) -> Result<Option<NotifyView>, ArgsErrorView> {
    let state = either(options.state, payload.state);
    let session = match either(options.session, env_session) {
        Some(id) if trimmed(id).len() > 0 => Some(trimmed(id)),
        _ => None,
    };
    if state is None {
        if options.hook {
            Ok(None)
        } else {
            Err(ArgsErrorView::MissingState)
        }
    } else if session is None {
        if options.hook {
            Ok(None)
        } else {
            Err(ArgsErrorView::MissingSession)
        }
    } else if !names_worktree(session->0) {
        Err(ArgsErrorView::BadSession(session->0))
    } else if options.reason is Some && state->0 != SessionStatus::Attention {
        Err(ArgsErrorView::ReasonWithoutAttention(status_label(state->0)))
    } else {
        Ok(
            Some(
                NotifyView {
                    worktree_id: session->0,
                    state: state->0,
                    reason: options.reason,
                    message: either(options.message, payload.summary),
                    window: options.window,
                    agent_session: either(options.agent_session, payload.agent_session),
                    transcript: either(options.transcript, payload.transcript),
                },
            ),
        )
    }
}

pub open spec fn notify_outcome(r: Result<Option<NotifyArgs>, ArgsError>) -> Result<
    Option<NotifyView>,
    ArgsErrorView,
> {
    match r {
        Ok(Some(args)) => Ok(Some(args@)),
        Ok(None) => Ok(None),
        Err(error) => Err(error@),
    }
}

fn or_text(first: Option<String>, second: Option<&Option<String>>) -> (r: Option<String>)
    ensures
        text_view(r) == either(
            text_view(first),
            (match second {
                Some(text) => text_view(*text),
                None => None,
            }),
        ),
{
    match first {
        Some(text) => Some(text),
        None => match second {
            Some(text) => copy_text(text),
            None => None,
        },
    }
}

/// Fills the gaps of a command line from the environment and, where a hook was
/// announced, from its payload.
pub fn resolve(options: Options, env_session: Option<&str>, payload: Option<&HookFields>) -> (r:
    Result<Option<NotifyArgs>, ArgsError>)
    ensures
        notify_outcome(r) == resolution(
            options@,
            (match env_session {
                Some(session) => Some(session@),
                None => None,
            }),
            hook_view(payload),
        ),
{
    let from_hook = match payload {
        Some(p) => p.state,
        None => None,
    };
    let state = match options.state {
        Some(state) => state,
        None => match from_hook {
            Some(state) => state,
            None => {
                return if options.hook {
                    Ok(None)
                } else {
                    Err(ArgsError::MissingState)
                };
            },
        },
    };
    let named = match options.session {
        Some(session) => Some(trim(session.as_str()).to_owned()),
        None => match env_session {
            Some(session) => Some(trim(session).to_owned()),
            None => None,
        },
    };
    let worktree_id = match named {
        Some(id) => {
            if id.as_str().is_empty() {
                return if options.hook {
                    Ok(None)
                } else {
                    Err(ArgsError::MissingSession)
                };
            }
            id
        },
        None => {
            return if options.hook {
                Ok(None)
            } else {
                Err(ArgsError::MissingSession)
            };
        },
    };
    if !is_worktree_id(worktree_id.as_str()) {
        return Err(ArgsError::BadSession(worktree_id));
    }
    if options.reason.is_some() && state != SessionStatus::Attention {
        return Err(ArgsError::ReasonWithoutAttention(state.label()));
    }
    let (summary, agent_session, transcript) = match payload {
        Some(p) => (Some(&p.summary), Some(&p.agent_session), Some(&p.transcript)),
        None => (None, None, None),
    };
    Ok(
        Some(
            NotifyArgs {
                worktree_id,
                state,
                reason: options.reason,
                message: or_text(options.message, summary),
                window: options.window,
                agent_session: or_text(options.agent_session, agent_session),
                transcript: or_text(options.transcript, transcript),
            },
        ),
    )
}

/// Reads and resolves a command line with no payload behind it: nothing to
/// report is a missing state there.
pub fn parse_args(args: &Vec<String>, env_session: Option<&str>) -> (r: Result<
    NotifyArgs,
    ArgsError,
>)
    ensures
        (match r {
            Ok(args) => Ok(args@),
            Err(error) => Err(error@),
        }) == (match read(texts(args@), OptionsView::none()) {
            Err(error) => Err::<NotifyView, ArgsErrorView>(error),
            Ok(options) => match resolution(
                options,
                (match env_session {
                    Some(session) => Some(session@),
                    None => None,
                }),
                HookView::none(),
            ) {
                Err(error) => Err(error),
                Ok(Some(view)) => Ok(view),
                Ok(None) => Err(ArgsErrorView::MissingState),
            },
        }),
{
    let options = match parse_options(args) {
        Ok(options) => options,
        Err(error) => {
            return Err(error);
        },
    };
    match resolve(options, env_session, None) {
        Ok(Some(parsed)) => Ok(parsed),
        Ok(None) => Err(ArgsError::MissingState),
        Err(error) => Err(error),
    }
}

/// What a report managed to deliver.
#[derive(Debug, Clone, Copy, PartialEq, Eq, Structural)]
pub struct Delivery {
    /// The durable mark of attention was written.
    pub marked: bool,
    /// The durable mark of being done was written or taken down.
    pub marked_done: bool,
    /// A running window took the report.
    pub delivered: bool,
}

impl Default for Delivery {
    fn default() -> (r: Self)
        ensures
            r == (Delivery { marked: false, marked_done: false, delivered: false }),
    {
        Delivery { marked: false, marked_done: false, delivered: false }
    }
}

/// What a report does to the durable marks of its session.
#[derive(Debug, Clone, Copy, PartialEq, Eq, Structural)]
pub struct Marks {
    /// The mark of attention is written.
    pub attention: bool,
    /// The mark of being done is written; otherwise it is taken down.
    pub done: bool,
}

/// What a report does to the durable marks: attention is only ever raised, and
/// every other state but done takes the mark of being done down.
pub fn marks(state: SessionStatus) -> (r: Marks)
    ensures
        r == (Marks {
            attention: state == SessionStatus::Attention,
            done: state == SessionStatus::Done,
        }),
{
    Marks { attention: state == SessionStatus::Attention, done: state == SessionStatus::Done }
}

/// Which window a report is about: the one that was named, else the one it comes
/// from.
pub fn resolve_window(explicit: Option<u32>, of_pane: Option<u32>) -> (r: Option<u32>)
    ensures
        r == either(explicit, of_pane),
{
    match explicit {
        Some(index) => Some(index),
        None => of_pane,
    }
}

/// The report that is sent.
pub fn notification(args: NotifyArgs, window: Option<u32>) -> (r: Notification)
    ensures
        r == (Notification {
            worktree_id: args.worktree_id,
            state: args.state,
            reason: args.reason,
            message: args.message,
            window,
            agent_session: args.agent_session,
            transcript: args.transcript,
        }),
{
    Notification {
        worktree_id: args.worktree_id,
        state: args.state,
        reason: args.reason,
        message: args.message,
        window,
        agent_session: args.agent_session,
        transcript: args.transcript,
    }
}

/// A flag that was spelled out beats what the hook delivered.
pub proof fn a_flag_beats_the_payload(
    options: OptionsView,
    env_session: Option<Seq<char>>,
    payload: HookView,
    report: NotifyView,
)
    requires
        resolution(options, env_session, payload) == Ok::<Option<NotifyView>, ArgsErrorView>(
            Some(report),
        ),
    ensures
        options.state matches Some(state) ==> report.state == state,
        options.message matches Some(message) ==> report.message == Some(message),
        options.agent_session matches Some(id) ==> report.agent_session == Some(id),
        options.transcript matches Some(path) ==> report.transcript == Some(path),
        options.session matches Some(id) ==> report.worktree_id == trimmed(id),
{
}

/// A hook is never failed for having nothing to say or nobody to say it of.
pub proof fn a_hook_may_be_silent(
    options: OptionsView,
    env_session: Option<Seq<char>>,
    payload: HookView,
)
    requires
        options.hook,
        either(options.state, payload.state) is None || either(options.session, env_session) is None,
    ensures
        resolution(options, env_session, payload) == Ok::<Option<NotifyView>, ArgsErrorView>(None),
{
}

/// A report carries a reason only with attention.
pub proof fn a_reason_needs_attention(
    options: OptionsView,
    env_session: Option<Seq<char>>,
    payload: HookView,
    report: NotifyView,
)
    requires
        resolution(options, env_session, payload) == Ok::<Option<NotifyView>, ArgsErrorView>(
            Some(report),
        ),
        report.reason is Some,
    ensures
        report.state == SessionStatus::Attention,
{
}

proof fn lemma_prefix_chars(arg: Seq<char>, prefix: Seq<char>)
    requires
        prefix.len() > 3,
    ensures
        starts_with(arg, prefix) ==> arg[2] == prefix[2] && arg[3] == prefix[3],
{
    if starts_with(arg, prefix) {
        assert(arg.subrange(0, prefix.len() as int)[2] == arg[2]);
        assert(arg.subrange(0, prefix.len() as int)[3] == arg[3]);
    }
}

proof fn lemma_joined_spelling(flag: Flag, raw: Seq<char>)
    ensures
        joined(flag.spelling() + "="@ + raw) == Some((flag, raw)),
        separate(flag.spelling() + "="@ + raw) is None,
        flag.spelling() + "="@ + raw != "--hook"@,
        separate(flag.spelling()) == Some(flag),
        flag.spelling() != "--hook"@,
{
    let arg = flag.spelling() + "="@ + raw;
    reveal_strlit("--hook");
    reveal_strlit("-s");
    reveal_strlit("-r");
    reveal_strlit("-m");
    reveal_strlit("-w");
    reveal_strlit("--state");
    reveal_strlit("--reason");
    reveal_strlit("--session");
    reveal_strlit("--message");
    reveal_strlit("--window");
    reveal_strlit("--agent-session");
    reveal_strlit("--transcript");
    reveal_strlit("--state=");
    reveal_strlit("--reason=");
    reveal_strlit("--session=");
    reveal_strlit("--message=");
    reveal_strlit("--window=");
    reveal_strlit("--agent-session=");
    reveal_strlit("--transcript=");
    reveal_strlit("=");
    lemma_prefix_chars(arg, "--state="@);
    lemma_prefix_chars(arg, "--reason="@);
    lemma_prefix_chars(arg, "--session="@);
    lemma_prefix_chars(arg, "--message="@);
    lemma_prefix_chars(arg, "--window="@);
    lemma_prefix_chars(arg, "--agent-session="@);
    lemma_prefix_chars(arg, "--transcript="@);
    let prefix = flag.spelling() + "="@;
    assert(arg[2] == flag.spelling()[2]);
    assert(arg[3] == flag.spelling()[3]);
    assert(arg.len() > flag.spelling().len());
    assert(arg.subrange(0, prefix.len() as int) =~= prefix);
    assert(rest_after(arg, prefix) =~= raw);
    match flag {
        Flag::State => {
            assert(prefix =~= "--state="@);
        },
        Flag::Reason => {
            assert(prefix =~= "--reason="@);
        },
        Flag::Session => {
            assert(prefix =~= "--session="@);
        },
        Flag::Message => {
            assert(prefix =~= "--message="@);
        },
        Flag::Window => {
            assert(prefix =~= "--window="@);
        },
        Flag::AgentSession => {
            assert(prefix =~= "--agent-session="@);
        },
        Flag::Transcript => {
            assert(prefix =~= "--transcript="@);
        },
    }
}

/// The two spellings of a flag mean the same: its value as the next argument, or
/// after an equals sign.
pub proof fn both_spellings_mean_the_same(
    flag: Flag,
    raw: Seq<char>,
    rest: Seq<Seq<char>>,
    options: OptionsView,
)
    ensures
        read(seq![flag.spelling(), raw] + rest, options) == read(
            seq![flag.spelling() + "="@ + raw] + rest,
            options,
        ),
{
    lemma_joined_spelling(flag, raw);
    let apart = seq![flag.spelling(), raw] + rest;
    let together = seq![flag.spelling() + "="@ + raw] + rest;
    assert(apart.skip(2) =~= rest);
    assert(together.skip(1) =~= rest);
}

/// A status and a reason are read back from their names.
pub proof fn names_are_read_back(status: SessionStatus, reason: AttentionReason)
    ensures
        status_named(status_label(status)) == Some(status),
        reason_named(reason_label(reason)) == Some(reason),
{
    reveal_strlit("idle");
    reveal_strlit("working");
    reveal_strlit("done");
    reveal_strlit("attention");
    reveal_strlit("waiting");
    reveal_strlit("permission");
    reveal_strlit("blocked");
    reveal_strlit("failed");
    assert("idle"@[0] != "done"@[0]);
    assert("waiting"@[0] != "blocked"@[0]);
    assert("idle"@.len() == 4 && "done"@.len() == 4 && "working"@.len() == 7
        && "attention"@.len() == 9);
    assert("permission"@.len() == 10 && "waiting"@.len() == 7 && "blocked"@.len() == 7
        && "failed"@.len() == 6);
}

/// Each status and each reason goes by one name, and no other text names one.
pub proof fn each_name_means_its_own(raw: Seq<char>)
    ensures
        status_named(raw) == Some(SessionStatus::Idle) <==> raw == "idle"@,
        status_named(raw) == Some(SessionStatus::Working) <==> raw == "working"@,
        status_named(raw) == Some(SessionStatus::Done) <==> raw == "done"@,
        status_named(raw) == Some(SessionStatus::Attention) <==> raw == "attention"@,
        reason_named(raw) == Some(AttentionReason::WaitingInput) <==> raw == "waiting"@,
        reason_named(raw) == Some(AttentionReason::Permission) <==> raw == "permission"@,
        reason_named(raw) == Some(AttentionReason::Blocked) <==> raw == "blocked"@,
        reason_named(raw) == Some(AttentionReason::Failed) <==> raw == "failed"@,
{
    reveal_strlit("idle");
    reveal_strlit("working");
    reveal_strlit("done");
    reveal_strlit("attention");
    reveal_strlit("waiting");
    reveal_strlit("permission");
    reveal_strlit("blocked");
    reveal_strlit("failed");
    assert("idle"@[0] != "done"@[0]);
    assert("waiting"@[0] != "blocked"@[0]);
    assert("idle"@.len() == 4 && "done"@.len() == 4 && "working"@.len() == 7
        && "attention"@.len() == 9);
    assert("permission"@.len() == 10 && "waiting"@.len() == 7 && "blocked"@.len() == 7
        && "failed"@.len() == 6);
}

/// A value that can be read sets the option of its own flag and leaves the others.
pub proof fn each_flag_sets_its_own_option(options: OptionsView, raw: Seq<char>)
    ensures
        options.taking(Flag::Session, raw) == Ok::<OptionsView, ArgsErrorView>(
            OptionsView { session: Some(raw), ..options },
        ),
        options.taking(Flag::Message, raw) == Ok::<OptionsView, ArgsErrorView>(
            OptionsView { message: Some(raw), ..options },
        ),
        options.taking(Flag::AgentSession, raw) == Ok::<OptionsView, ArgsErrorView>(
            OptionsView { agent_session: Some(raw), ..options },
        ),
        options.taking(Flag::Transcript, raw) == Ok::<OptionsView, ArgsErrorView>(
            OptionsView { transcript: Some(raw), ..options },
        ),
        raw == "attention"@ ==> options.taking(Flag::State, raw) == Ok::<
            OptionsView,
            ArgsErrorView,
        >(OptionsView { state: Some(SessionStatus::Attention), ..options }),
        raw == "done"@ ==> options.taking(Flag::State, raw) == Ok::<OptionsView, ArgsErrorView>(
            OptionsView { state: Some(SessionStatus::Done), ..options },
        ),
        raw == "working"@ ==> options.taking(Flag::State, raw) == Ok::<OptionsView, ArgsErrorView>(
            OptionsView { state: Some(SessionStatus::Working), ..options },
        ),
        raw == "idle"@ ==> options.taking(Flag::State, raw) == Ok::<OptionsView, ArgsErrorView>(
            OptionsView { state: Some(SessionStatus::Idle), ..options },
        ),
        raw == "permission"@ ==> options.taking(Flag::Reason, raw) == Ok::<
            OptionsView,
            ArgsErrorView,
        >(OptionsView { reason: Some(AttentionReason::Permission), ..options }),
        raw == "waiting"@ ==> options.taking(Flag::Reason, raw) == Ok::<OptionsView, ArgsErrorView>(
            OptionsView { reason: Some(AttentionReason::WaitingInput), ..options },
        ),
        options.taking(Flag::State, raw) is Ok <==> raw == "idle"@ || raw == "working"@ || raw
            == "done"@ || raw == "attention"@,
        options.taking(Flag::Reason, raw) is Ok <==> raw == "waiting"@ || raw == "permission"@
            || raw == "blocked"@ || raw == "failed"@,
{
    each_name_means_its_own(raw);
}

/// The window that is written in decimal is the one that is meant.
pub proof fn a_window_is_read_as_written(options: OptionsView, n: u32)
    ensures
        options.taking(Flag::Window, crate::text::decimal(n as nat)) == Ok::<
            OptionsView,
            ArgsErrorView,
        >(OptionsView { window: Some(n), ..options }),
{
    let written = crate::text::decimal(n as nat);
    crate::text::lemma_decimal_digits(n as nat);
    let span = crate::text::trimming_cuts_white_space_alone(written);
    if span.0 > 0 {
        assert(crate::text::is_digit(written[0]));
        assert(crate::text::is_space(written[0]));
    }
    if span.1 < written.len() {
        assert(crate::text::is_digit(written[span.1]));
        assert(crate::text::is_space(written[span.1]));
    }
    assert(written.subrange(0, written.len() as int) =~= written);
    crate::text::reading_undoes_writing(n as nat, u32::MAX as nat);
}

/// What is reported comes from the flags, and behind them from the environment and
/// from the hook: each part of the report from its own source. The reason and the
/// window come from the flags alone.
pub proof fn each_part_of_a_report_has_its_source(
    options: OptionsView,
    env_session: Option<Seq<char>>,
    payload: HookView,
    report: NotifyView,
)
    requires
        resolution(options, env_session, payload) == Ok::<Option<NotifyView>, ArgsErrorView>(
            Some(report),
        ),
    ensures
        options.state is None ==> payload.state == Some(report.state),
        options.session is None ==> env_session is Some && report.worktree_id == trimmed(
            env_session->0,
        ),
        options.message is None ==> report.message == payload.summary,
        options.agent_session is None ==> report.agent_session == payload.agent_session,
        options.transcript is None ==> report.transcript == payload.transcript,
        report.reason == options.reason,
        report.window == options.window,
        report.worktree_id.len() == 6,
        forall|k: int|
            0 <= k < 6 ==> {
                let c = #[trigger] report.worktree_id[k];
                '0' <= c <= '9' || 'a' <= c <= 'f' || 'A' <= c <= 'F'
            },
{
    assert forall|k: int| 0 <= k < 6 implies {
        let c = #[trigger] report.worktree_id[k];
        '0' <= c <= '9' || 'a' <= c <= 'f' || 'A' <= c <= 'F'
    } by {
        assert(is_hex(report.worktree_id[k]));
    }
}

/// A command line is a report exactly where it says a state and names a worktree, and
/// gives a reason only with attention. What is missing is said, first the state, and a
/// hook that lacks one of them is silent.
pub proof fn a_report_needs_a_state_and_a_worktree(
    options: OptionsView,
    env_session: Option<Seq<char>>,
    payload: HookView,
    state: Option<SessionStatus>,
    name: Seq<char>,
)
    requires
        options.state is Some ==> state == options.state,
        options.state is None ==> state == payload.state,
        options.session is Some ==> name == trimmed(options.session->0),
        options.session is None && env_session is Some ==> name == trimmed(env_session->0),
        options.session is None && env_session is None ==> name.len() == 0,
    ensures
        ({
            let r = resolution(options, env_session, payload);
            &&& (r matches Ok(Some(_))) <==> state is Some && name.len() == 6 && (forall|k: int|
                0 <= k < 6 ==> is_hex(#[trigger] name[k])) && (options.reason is Some ==> state
                == Some(SessionStatus::Attention))
            &&& (r matches Ok(None)) <==> options.hook && (state is None || name.len() == 0)
            &&& !options.hook && state is None ==> r == Err::<Option<NotifyView>, ArgsErrorView>(
                ArgsErrorView::MissingState,
            )
            &&& !options.hook && state is Some && name.len() == 0 ==> r == Err::<
                Option<NotifyView>,
                ArgsErrorView,
            >(ArgsErrorView::MissingSession)
        }),
{
    assert(names_worktree(name) <==> name.len() == 6 && (forall|k: int|
        0 <= k < 6 ==> is_hex(#[trigger] name[k])));
}

/// Each flag goes by its own words, long or short.
pub proof fn each_flag_goes_by_its_own_words(arg: Seq<char>)
    ensures
        separate(arg) == Some(Flag::State) <==> arg == "--state"@ || arg == "-s"@,
        separate(arg) == Some(Flag::Reason) <==> arg == "--reason"@ || arg == "-r"@,
        separate(arg) == Some(Flag::Session) <==> arg == "--session"@,
        separate(arg) == Some(Flag::Message) <==> arg == "--message"@ || arg == "-m"@,
        separate(arg) == Some(Flag::Window) <==> arg == "--window"@ || arg == "-w"@,
        separate(arg) == Some(Flag::AgentSession) <==> arg == "--agent-session"@,
        separate(arg) == Some(Flag::Transcript) <==> arg == "--transcript"@,
{
    reveal_strlit("--state");
    reveal_strlit("-s");
    reveal_strlit("--reason");
    reveal_strlit("-r");
    reveal_strlit("--session");
    reveal_strlit("--message");
    reveal_strlit("-m");
    reveal_strlit("--window");
    reveal_strlit("-w");
    reveal_strlit("--agent-session");
    reveal_strlit("--transcript");
    assert("--state"@.len() == 7 && "--reason"@.len() == 8 && "--session"@.len() == 9
        && "--message"@.len() == 9 && "--window"@.len() == 8 && "--agent-session"@.len() == 15
        && "--transcript"@.len() == 12);
    assert("-s"@.len() == 2 && "-r"@.len() == 2 && "-m"@.len() == 2 && "-w"@.len() == 2);
    assert("-s"@[1] == 's' && "-r"@[1] == 'r' && "-m"@[1] == 'm' && "-w"@[1] == 'w');
    assert("--reason"@[2] == 'r' && "--window"@[2] == 'w');
    assert("--session"@[2] == 's' && "--message"@[2] == 'm');
}

}
