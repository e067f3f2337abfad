//! Commands from the lines of a terminal.

use crate::command::{Command, CommandView};
use crate::commander::{ParseError, ParseErrorView};
use vstd::prelude::*;

pub mod parse_cmd;

use parse_cmd::{captured, captures, group, Verb};

verus! {

/// What is written before each line is read.
pub const PROMPT: &'static str = "> ";

/// The pattern that finds the first word of a line: white space, then the
/// word, which is group 1, then nothing more or white space and the rest.
pub open spec fn word_pattern() -> Seq<char> {
    r"^\s*(?P<cmd_name>\w+)(\s+(.*))?$"@
}

/// What `str::to_lowercase` of std makes of a string with the given
/// characters: its lowercase equivalent.
pub uninterp spec fn lowercased(text: Seq<char>) -> Seq<char>;

/// `text` in lowercase. This calls `str::to_lowercase` of std, and what is
/// claimed of it is that the result is a function of the characters of
/// `text` alone: [`lowercased`].
#[verifier::external_body]
pub(crate) fn lowercase(text: &str) -> (lower: String)
    ensures
        lower@ == lowercased(text@),
{
    text.to_lowercase()
}

/// The table of a commander: which word calls which command.
pub type Table = Map<Seq<char>, Verb>;

/// The word that a line asks for, where `found` is what the search of the
/// line for [`word_pattern`] found: the first word in lowercase.
pub open spec fn word_of(found: Option<parse_cmd::Groups>) -> Option<Seq<char>> {
    if found is Some && group(found->0, 1) is Some {
        Some(lowercased(group(found->0, 1)->0))
    } else {
        None
    }
}

/// The verb that `word` calls in `table`. No word at all is the error
/// `NoCommand`, a word that is not in the table is `InvalidCommand` with
/// that word.
pub open spec fn selected(table: Table, word: Option<Seq<char>>) -> Result<Verb, ParseErrorView> {
    match word {
        Some(word) => if table.contains_key(word) {
            Ok(table[word])
        } else {
            Err(ParseErrorView::InvalidCommand(word))
        },
        None => Err(ParseErrorView::NoCommand),
    }
}

/// What parsing `line` with `table` gives: the line goes to the verb that
/// its first word, in lowercase, calls in the table, and that verb parses
/// the whole line.
pub open spec fn parsed_line(table: Table, line: Seq<char>) -> Result<CommandView, ParseErrorView> {
    match selected(table, word_of(captured(word_pattern(), line))) {
        Ok(verb) => verb.parsed(line, captured(verb.pattern(), line)),
        Err(error) => Err(error),
    }
}

spec fn table_of(entries: Seq<(String, Verb)>) -> Table
    decreases entries.len(),
{
    if entries.len() == 0 {
        Map::empty()
    } else {
        table_of(entries.drop_last()).insert(entries.last().0@, entries.last().1)
    }
}

/// What reading the next line of the input gave.
#[derive(Debug)]
pub enum Read {
    /// A line, without the line break at its end.
    Line(String),
    /// The input could not be read; the text says why.
    Failed(String),
    /// The input has ended.
    End,
}

/// What to do after a line was read.
#[derive(Debug)]
pub enum Next {
    /// The line is this command: hand it on.
    Command(Command),
    /// The line is no command: write this text to the error output, and
    /// read on.
    Report(String),
    /// There are no more commands.
    End,
}

/// The commander of a terminal: it turns each line into a command. It
/// reads and writes nothing itself: whoever runs it writes [`PROMPT`],
/// reads a line, and hands what came to [`CliCommander::next`].
#[derive(Debug)]
pub struct CliCommander {
    entries: Vec<(String, Verb)>,
}

impl View for CliCommander {
    type V = Table;

    closed spec fn view(&self) -> Table {
        table_of(self.entries@)
    }
}

impl CliCommander {
    /// The table of a new commander: each verb under its own keyword.
    pub open spec fn standard() -> Table {
        Map::empty().insert(Verb::Point.keyword(), Verb::Point).insert(
            Verb::Rectangle.keyword(),
            Verb::Rectangle,
        ).insert(Verb::Line.keyword(), Verb::Line).insert(
            Verb::Circle.keyword(),
            Verb::Circle,
        ).insert(Verb::Square.keyword(), Verb::Square).insert(
            Verb::Move.keyword(),
            Verb::Move,
        ).insert(Verb::Undo.keyword(), Verb::Undo).insert(Verb::Redo.keyword(), Verb::Redo).insert(
            Verb::Delete.keyword(),
            Verb::Delete,
        )
    }

    /// A commander that knows the nine commands by their keywords.
    pub fn new() -> (commander: Self)
        ensures
            commander@ == Self::standard(),
    {
        let mut this = CliCommander { entries: Vec::new() };
        this.register_parse_fn();
        this
    }

    fn register_parse_fn(&mut self)
        ensures
            final(self)@ == old(self)@.insert(Verb::Point.keyword(), Verb::Point).insert(
                Verb::Rectangle.keyword(),
                Verb::Rectangle,
            ).insert(Verb::Line.keyword(), Verb::Line).insert(
                Verb::Circle.keyword(),
                Verb::Circle,
            ).insert(Verb::Square.keyword(), Verb::Square).insert(
                Verb::Move.keyword(),
                Verb::Move,
            ).insert(Verb::Undo.keyword(), Verb::Undo).insert(
                Verb::Redo.keyword(),
                Verb::Redo,
            ).insert(Verb::Delete.keyword(), Verb::Delete),
    {
        self.register_verb(Verb::Point);
        self.register_verb(Verb::Rectangle);
        self.register_verb(Verb::Line);
        self.register_verb(Verb::Circle);
        self.register_verb(Verb::Square);
        self.register_verb(Verb::Move);
        self.register_verb(Verb::Undo);
        self.register_verb(Verb::Redo);
        self.register_verb(Verb::Delete);
    }

    fn register_verb(&mut self, verb: Verb)
        ensures
            final(self)@ == old(self)@.insert(verb.keyword(), verb),
    {
        self.register_parser(String::from_str(verb.keyword_text()), verb);
    }

    /// Has the word `cmd_name` call `verb` from now on. Returns the verb that
    /// the word called before, if it called one.
    pub fn register_parser(&mut self, cmd_name: String, verb: Verb) -> (previous: Option<Verb>)
        ensures
            final(self)@ == old(self)@.insert(cmd_name@, verb),
            previous == (if old(self)@.contains_key(cmd_name@) {
                Some(old(self)@[cmd_name@])
            } else {
                None
            }),
    {
        let previous = self.lookup(cmd_name.as_str());
        self.entries.push((cmd_name, verb));
        assert(self.entries@.drop_last() =~= old(self).entries@);
        previous
    }

    /// The verb that `word` calls, if it calls one.
    pub fn lookup(&self, word: &str) -> (verb: Option<Verb>)
        ensures
            verb == (if self@.contains_key(word@) {
                Some(self@[word@])
            } else {
                None
            }),
    {
        let key = String::from_str(word);
        let mut i: usize = self.entries.len();
        assert(self.entries@.take(i as int) =~= self.entries@);
        while i > 0
            invariant
                i <= self.entries@.len(),
                key@ == word@,
                self@.contains_key(word@) == table_of(self.entries@.take(i as int)).contains_key(
                    word@,
                ),
                self@.contains_key(word@) ==> self@[word@] == table_of(
                    self.entries@.take(i as int),
                )[word@],
            decreases i,
        {
            i -= 1;
            assert(self.entries@.take(i + 1).drop_last() =~= self.entries@.take(i as int));
            if self.entries[i].0 == key {
                return Some(self.entries[i].1);
            }
        }
        None
    }

    /// The verb that a line goes to, where `word` is the first word of the
    /// line in lowercase: see [`selected`].
    pub fn select(&self, word: Option<String>) -> (verb: Result<Verb, ParseError>)
        ensures
            match selected(self@, word.deep_view()) {
                Ok(expected) => verb == Ok::<Verb, ParseError>(expected),
                Err(error) => verb matches Err(e) && e@ == error,
            },
    {
        match word {
            Some(word) => match self.lookup(word.as_str()) {
                Some(verb) => Ok(verb),
                None => Err(ParseError::InvalidCommand(word)),
            },
            None => Err(ParseError::NoCommand),
        }
    }

    /// Parses a line: see [`parsed_line`].
    pub fn parse_line(&self, line: &str) -> (result: Result<Command, ParseError>)
        ensures
            parse_cmd::outcome(result) == parsed_line(self@, line@),
    {
        let found = captures(r"^\s*(?P<cmd_name>\w+)(\s+(.*))?$", line);
        let word = match &found {
            Some(groups) => if groups.len() > 1 {
                match &groups[1] {
                    Some(word) => Some(lowercase(word.as_str())),
                    None => None,
                }
            } else {
                None
            },
            None => None,
        };
        match self.select(word) {
            Ok(verb) => verb.parse(line),
            Err(error) => Err(error),
        }
    }

    /// What to do with what was read: the end of the input ends the
    /// commands; a line that parses is handed on as its command; a line that
    /// does not, and a failure to read, are reported, each as its message
    /// with a line break after it.
    pub fn next(&self, read: Read) -> (next: Next)
        ensures
            match read {
                Read::End => next is End,
                Read::Failed(message) => next matches Next::Report(text) && text@ == message@
                    + "\n"@,
                Read::Line(line) => match parsed_line(self@, line@) {
                    Ok(command) => next matches Next::Command(made) && made@ == command,
                    Err(error) => next matches Next::Report(text) && text@ == error.message()
                        + "\n"@,
                },
            },
    {
        match read {
            Read::End => Next::End,
            Read::Failed(message) => {
                let mut text = message;
                text.append("\n");
                Next::Report(text)
            },
            Read::Line(line) => match self.parse_line(line.as_str()) {
                Ok(command) => Next::Command(command),
                Err(error) => {
                    let mut text = error.to_string();
                    text.append("\n");
                    Next::Report(text)
                },
            },
        }
    }
}

impl Default for CliCommander {
    fn default() -> (commander: CliCommander)
        ensures
            commander@ == CliCommander::standard(),
    {
        CliCommander::new()
    }
}

} // verus!
