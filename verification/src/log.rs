//! Where the application writes what it did.

use vstd::prelude::*;

verus! {

/// What a logger promises, as a function: whether a call that found the
/// logger as the first argument and handed it the message may have left it
/// as the third argument.
pub type Logs<L> = spec_fn(L, Seq<char>, L) -> bool;

/// Whether `states` are the states that a logger went through while it was
/// handed `lines` one after the other, from `before` on, by what it
/// promises: each line found the logger as the line before left it.
pub open spec fn logged<L>(
    logs: Logs<L>,
    before: L,
    lines: Seq<Seq<char>>,
    states: Seq<L>,
) -> bool {
    &&& states.len() == lines.len() + 1
    &&& states[0] == before
    &&& forall|i: int| 0 <= i < lines.len() ==> logs(#[trigger] states[i], lines[i], states[i + 1])
}

/// Whether a logger that was at `before` may have been handed `lines` one
/// after the other and have ended at `after`: see [`logged`].
pub open spec fn logged_all<L>(logs: Logs<L>, before: L, lines: Seq<Seq<char>>, after: L) -> bool {
    exists|states: Seq<L>| #[trigger] logged(logs, before, lines, states) && states.last() == after
}

/// A sink for messages. The application hands it each message as finished
/// text and expects nothing back.
///
/// What a logger does with a message is its own affair, and so is what it
/// promises: it says in [`Logger::logs`] what holds of every call. A logger
/// that promises nothing leaves that as it is.
pub trait Logger: Sized {
    /// What this logger promises of a call that found it as `self`, handed
    /// it `msg` and left it as `after`.
    open spec fn logs(&self, msg: Seq<char>, after: &Self) -> bool {
        true
    }

    /// Takes the message.
    fn log(&mut self, msg: &str)
        ensures
            old(self).logs(msg@, final(self)),
    ;
}

/// What the loggers of a type promise, as a function: see [`Logger::logs`].
pub open spec fn logging<L: Logger>() -> Logs<L> {
    |from: L, msg: Seq<char>, to: L| from.logs(msg, &to)
}

/// The logger that drops every message.
pub struct DummyLogger;

impl Logger for DummyLogger {
    fn log(&mut self, _msg: &str) {
    }
}

} // verus!
