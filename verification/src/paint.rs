//! The coloured marks that open each line of a job's log.

use vstd::prelude::*;

verus! {

/// The escape character that opens a terminal control sequence.
pub open spec fn escape() -> char {
    '\u{1b}'
}

/// The control sequence that switches the foreground to red.
pub open spec fn red_on() -> Seq<char> {
    seq![escape(), '[', '3', '1', 'm']
}

/// The control sequence that switches the foreground to blue.
pub open spec fn blue_on() -> Seq<char> {
    seq![escape(), '[', '3', '4', 'm']
}

/// The control sequence that switches all colouring off.
pub open spec fn colour_off() -> Seq<char> {
    seq![escape(), '[', '0', 'm']
}

/// `out` is `text` as the colouring library prints it: bare where colouring is
/// switched off, else between the sequence `on` and the reset sequence. The
/// library reads its switch more than once while it prints; where another
/// thread turns the switch off in between, the text comes out bare with the
/// reset sequence behind it.
pub open spec fn is_tinted(out: Seq<char>, text: Seq<char>, on: Seq<char>) -> bool {
    out == text || out == on + text + colour_off() || out == text + colour_off()
}

/// The sign that opens a line about a failure.
pub open spec fn failure_sign() -> Seq<char> {
    "\u{274c}"@
}

/// The sign that opens a line about a command.
pub open spec fn command_sign() -> Seq<char> {
    "\u{1f5a5}\u{fe0f}"@
}

/// Calls `colored::Colorize::red` on `text` and formats the result with its
/// `Display` impl. Trusted: the text comes back bare, or wrapped in the red and
/// the reset sequence (or, where the switch is turned off during the call,
/// with the reset sequence alone). Which of these depends on the process (the
/// variables `NO_COLOR`, `CLICOLOR` and `CLICOLOR_FORCE`, whether standard
/// output is a terminal, and the library's override switch), so it is left
/// open. A `text` that holds an escape character is left out: the library
/// rewrites reset sequences inside it.
#[verifier::external_body]
pub(crate) fn tint_red(text: &str) -> (out: String)
    requires
        !text@.contains(escape()),
    ensures
        is_tinted(out@, text@, red_on()),
{
    colored::Colorize::red(text).to_string()
}

/// Calls `colored::Colorize::blue` on `text` and formats the result with its
/// `Display` impl. Trusted: the text comes back bare, or wrapped in the blue
/// and the reset sequence (or with the reset sequence alone), as for red;
/// which of these depends on the process. A `text` that holds an escape
/// character is left out.
#[verifier::external_body]
pub(crate) fn tint_blue(text: &str) -> (out: String)
    requires
        !text@.contains(escape()),
    ensures
        is_tinted(out@, text@, blue_on()),
{
    colored::Colorize::blue(text).to_string()
}

/// The two marks that open the lines of a log, as they print in this process.
#[derive(Debug, Clone, PartialEq, Eq)]
pub struct Marks {
    /// Opens a line about a failure.
    pub failure: String,
    /// Opens a line about a command.
    pub command: String,
}

pub struct MarksView {
    pub failure: Seq<char>,
    pub command: Seq<char>,
}

impl MarksView {
    /// Both marks are their sign as the colouring library prints it.
    pub open spec fn valid(self) -> bool {
        &&& is_tinted(self.failure, failure_sign(), red_on())
        &&& is_tinted(self.command, command_sign(), blue_on())
    }
}

impl View for Marks {
    type V = MarksView;

    open spec fn view(&self) -> MarksView {
        MarksView { failure: self.failure@, command: self.command@ }
    }
}

impl Marks {
    /// The marks as this process prints them now: the failure sign in red, the
    /// command sign in blue, or both bare where colouring is switched off.
    pub fn current() -> (marks: Marks)
        ensures
            marks@.valid(),
    {
        proof {
            reveal_strlit("\u{274c}");
            reveal_strlit("\u{1f5a5}\u{fe0f}");
        }
        let failure = tint_red("\u{274c}");
        let command = tint_blue("\u{1f5a5}\u{fe0f}");
        Marks { failure, command }
    }

    /// The marks without colour: the bare signs.
    pub fn plain() -> (marks: Marks)
        ensures
            marks@.failure == failure_sign(),
            marks@.command == command_sign(),
            marks@.valid(),
    {
        Marks { failure: "\u{274c}".to_owned(), command: "\u{1f5a5}\u{fe0f}".to_owned() }
    }
}

} // verus!
