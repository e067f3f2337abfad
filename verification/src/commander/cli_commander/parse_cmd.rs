//! The command lines: what each command is called, how its line is
//! written, and how a line becomes a command.

use crate::command::{Command, CommandView, Control, Delete, DrawShape, MoveBy};
use crate::commander::{ParseError, ParseErrorView};
use crate::shape::{Circle, DataType, Line, Point, Rectangle, Shape, Square};
use crate::text::{i32_of, parse_i32};
use vstd::prelude::*;

verus! {

/// The groups of a match, in the order of their opening brackets in the
/// pattern. Group 0 is the whole match. A group that took no part in the
/// match is `None`.
pub type Groups = Seq<Option<Seq<char>>>;

/// What the regex crate finds where it searches `text` for the leftmost
/// match of `pattern`: the text of each capture group of that match, or
/// `None` where `text` holds no match of `pattern`, and also where
/// `pattern` is no pattern that the crate accepts.
pub uninterp spec fn captured(pattern: Seq<char>, text: Seq<char>) -> Option<Seq<Option<Seq<char>>>>;

/// Searches `text` for `pattern`. This compiles `pattern` with
/// `regex::Regex::new` and searches with `Regex::captures`; the groups are
/// read with `Captures::iter` and `Match::as_str`. What is claimed is that
/// the result is a function of the two texts alone: [`captured`].
#[verifier::external_body]
pub(crate) fn captures(pattern: &str, text: &str) -> (groups: Option<Vec<Option<String>>>)
    ensures
        groups.deep_view() == captured(pattern@, text@),
{
    let regex = match regex::Regex::new(pattern) {
        Ok(regex) => regex,
        Err(_) => return None,
    };
    let found = regex.captures(text)?;
    let mut groups = Vec::new();
    for group in found.iter() {
        groups.push(
            match group {
                Some(part) => Some(part.as_str().to_string()),
                None => None,
            },
        );
    }
    Some(groups)
}

/// The commands by name: each stands for the parser of one kind of line.
#[derive(Debug, Copy, Clone, PartialEq, Eq, Structural)]
pub enum Verb {
    Point,
    Rectangle,
    Line,
    Circle,
    Square,
    Move,
    Undo,
    Redo,
    Delete,
}

impl Verb {
    /// Every verb, in the order in which a manual lists them.
    pub fn all() -> (verbs: Vec<Verb>)
        ensures
            verbs@ == seq![
                Verb::Point,
                Verb::Rectangle,
                Verb::Line,
                Verb::Circle,
                Verb::Square,
                Verb::Move,
                Verb::Undo,
                Verb::Redo,
                Verb::Delete,
            ],
    {
        let mut verbs = Vec::new();
        verbs.push(Verb::Point);
        verbs.push(Verb::Rectangle);
        verbs.push(Verb::Line);
        verbs.push(Verb::Circle);
        verbs.push(Verb::Square);
        verbs.push(Verb::Move);
        verbs.push(Verb::Undo);
        verbs.push(Verb::Redo);
        verbs.push(Verb::Delete);
        assert(verbs@ =~= seq![
            Verb::Point,
            Verb::Rectangle,
            Verb::Line,
            Verb::Circle,
            Verb::Square,
            Verb::Move,
            Verb::Undo,
            Verb::Redo,
            Verb::Delete,
        ]);
        verbs
    }

    /// The word that a line of this command begins with.
    pub open spec fn keyword(self) -> Seq<char> {
        match self {
            Verb::Point => "point"@,
            Verb::Rectangle => "rectangle"@,
            Verb::Line => "line"@,
            Verb::Circle => "circle"@,
            Verb::Square => "square"@,
            Verb::Move => "move"@,
            Verb::Undo => "undo"@,
            Verb::Redo => "redo"@,
            Verb::Delete => "delete"@,
        }
    }

    /// How a line of this command is written, for a reader.
    pub open spec fn usage(self) -> Seq<char> {
        match self {
            Verb::Point => "point <name> <x:i32> <y:i32>"@,
            Verb::Rectangle => "rectangle <name> <x:i32> <y:i32> <w:i32> <h:i32>"@,
            Verb::Line => "line <name> <x1:i32> <y1:i32> <x2:i32> <y2:i32>"@,
            Verb::Circle => "circle <name> <x:i32> <y:i32> <r:i32>"@,
            Verb::Square => "square <name> <x:i32> <y:i32> <l:i32>"@,
            Verb::Move => "move <name> <dx:i32> <dy:i32>"@,
            Verb::Undo => "undo"@,
            Verb::Redo => "redo"@,
            Verb::Delete => "delete <name>"@,
        }
    }

    /// What this command does, in a few words.
    pub open spec fn help(self) -> Seq<char> {
        match self {
            Verb::Point => "Draw point"@,
            Verb::Rectangle => "Draw rectangle"@,
            Verb::Line => "Draw line"@,
            Verb::Circle => "Draw circle"@,
            Verb::Square => "Draw square"@,
            Verb::Move => "Move a shape"@,
            Verb::Undo => "Undo last command"@,
            Verb::Redo => "Redo last undone command"@,
            Verb::Delete => "Delete a shape by its name"@,
        }
    }

    /// The pattern that a line of this command matches: the keyword in
    /// letters of either case, then the name, a word, and the numbers, each
    /// a string of digits with `+` or `-` before it or without a sign; white
    /// space between them, and any white space before and after. The name is
    /// group 1, the numbers are groups 2, 4, 6 and 8.
    pub open spec fn pattern(self) -> Seq<char> {
        match self {
            Verb::Point =>
                r"^\s*(?i:point)\s+(?P<name>\w+)\s+(?P<x>(\+|-)?[[:digit:]]+)\s+(?P<y>(\+|-)?[[:digit:]]+)\s*$"@,
            Verb::Rectangle =>
                r"^\s*(?i:rectangle)\s+(?P<name>\w+)\s+(?P<x>(\+|-)?[[:digit:]]+)\s+(?P<y>(\+|-)?[[:digit:]]+)\s+(?P<w>(\+|-)?[[:digit:]]+)\s+(?P<h>(\+|-)?[[:digit:]]+)\s*$"@,
            Verb::Line =>
                r"^\s*(?i:line)\s+(?P<name>\w+)\s+(?P<x1>(\+|-)?[[:digit:]]+)\s+(?P<y1>(\+|-)?[[:digit:]]+)\s+(?P<x2>(\+|-)?[[:digit:]]+)\s+(?P<y2>(\+|-)?[[:digit:]]+)\s*$"@,
            Verb::Circle =>
                r"^\s*(?i:circle)\s+(?P<name>\w+)\s+(?P<x>(\+|-)?[[:digit:]]+)\s+(?P<y>(\+|-)?[[:digit:]]+)\s+(?P<r>(\+|-)?[[:digit:]]+)\s*$"@,
            Verb::Square =>
                r"^\s*(?i:square)\s+(?P<name>\w+)\s+(?P<x>(\+|-)?[[:digit:]]+)\s+(?P<y>(\+|-)?[[:digit:]]+)\s+(?P<l>(\+|-)?[[:digit:]]+)\s*$"@,
            Verb::Move =>
                r"^\s*(?i:move)\s+(?P<name>\w+)\s+(?P<dx>(\+|-)?[[:digit:]]+)\s+(?P<dy>(\+|-)?[[:digit:]]+)\s*$"@,
            Verb::Undo => r"^\s*(?i:undo)\s*$"@,
            Verb::Redo => r"^\s*(?i:redo)\s*$"@,
            Verb::Delete => r"^\s*(?i:delete)\s+(?P<name>\w+)\s*$"@,
        }
    }

    /// Computes [`Verb::keyword`].
    pub fn keyword_text(self) -> (text: &'static str)
        ensures
            text@ == self.keyword(),
    {
        match self {
            Verb::Point => "point",
            Verb::Rectangle => "rectangle",
            Verb::Line => "line",
            Verb::Circle => "circle",
            Verb::Square => "square",
            Verb::Move => "move",
            Verb::Undo => "undo",
            Verb::Redo => "redo",
            Verb::Delete => "delete",
        }
    }

    /// Computes [`Verb::usage`].
    pub fn usage_text(self) -> (text: &'static str)
        ensures
            text@ == self.usage(),
    {
        match self {
            Verb::Point => "point <name> <x:i32> <y:i32>",
            Verb::Rectangle => "rectangle <name> <x:i32> <y:i32> <w:i32> <h:i32>",
            Verb::Line => "line <name> <x1:i32> <y1:i32> <x2:i32> <y2:i32>",
            Verb::Circle => "circle <name> <x:i32> <y:i32> <r:i32>",
            Verb::Square => "square <name> <x:i32> <y:i32> <l:i32>",
            Verb::Move => "move <name> <dx:i32> <dy:i32>",
            Verb::Undo => "undo",
            Verb::Redo => "redo",
            Verb::Delete => "delete <name>",
        }
    }

    /// Computes [`Verb::help`].
    pub fn help_text(self) -> (text: &'static str)
        ensures
            text@ == self.help(),
    {
        match self {
            Verb::Point => "Draw point",
            Verb::Rectangle => "Draw rectangle",
            Verb::Line => "Draw line",
            Verb::Circle => "Draw circle",
            Verb::Square => "Draw square",
            Verb::Move => "Move a shape",
            Verb::Undo => "Undo last command",
            Verb::Redo => "Redo last undone command",
            Verb::Delete => "Delete a shape by its name",
        }
    }

    /// Computes [`Verb::pattern`].
    pub fn pattern_text(self) -> (text: &'static str)
        ensures
            text@ == self.pattern(),
    {
        match self {
            Verb::Point =>
                r"^\s*(?i:point)\s+(?P<name>\w+)\s+(?P<x>(\+|-)?[[:digit:]]+)\s+(?P<y>(\+|-)?[[:digit:]]+)\s*$",
            Verb::Rectangle =>
                r"^\s*(?i:rectangle)\s+(?P<name>\w+)\s+(?P<x>(\+|-)?[[:digit:]]+)\s+(?P<y>(\+|-)?[[:digit:]]+)\s+(?P<w>(\+|-)?[[:digit:]]+)\s+(?P<h>(\+|-)?[[:digit:]]+)\s*$",
            Verb::Line =>
                r"^\s*(?i:line)\s+(?P<name>\w+)\s+(?P<x1>(\+|-)?[[:digit:]]+)\s+(?P<y1>(\+|-)?[[:digit:]]+)\s+(?P<x2>(\+|-)?[[:digit:]]+)\s+(?P<y2>(\+|-)?[[:digit:]]+)\s*$",
            Verb::Circle =>
                r"^\s*(?i:circle)\s+(?P<name>\w+)\s+(?P<x>(\+|-)?[[:digit:]]+)\s+(?P<y>(\+|-)?[[:digit:]]+)\s+(?P<r>(\+|-)?[[:digit:]]+)\s*$",
            Verb::Square =>
                r"^\s*(?i:square)\s+(?P<name>\w+)\s+(?P<x>(\+|-)?[[:digit:]]+)\s+(?P<y>(\+|-)?[[:digit:]]+)\s+(?P<l>(\+|-)?[[:digit:]]+)\s*$",
            Verb::Move =>
                r"^\s*(?i:move)\s+(?P<name>\w+)\s+(?P<dx>(\+|-)?[[:digit:]]+)\s+(?P<dy>(\+|-)?[[:digit:]]+)\s*$",
            Verb::Undo => r"^\s*(?i:undo)\s*$",
            Verb::Redo => r"^\s*(?i:redo)\s*$",
            Verb::Delete => r"^\s*(?i:delete)\s+(?P<name>\w+)\s*$",
        }
    }
}

/// The text of the group at `index`, where the match has such a group and
/// the group took part in it.
pub open spec fn group(groups: Groups, index: int) -> Option<Seq<char>> {
    if 0 <= index < groups.len() {
        groups[index]
    } else {
        None
    }
}

/// The number that the group at `index` stands for, where there is such a
/// group and its text is a decimal number in the range of [`DataType`].
pub open spec fn number(groups: Groups, index: int) -> Option<DataType> {
    match group(groups, index) {
        Some(text) => i32_of(text),
        None => None,
    }
}

/// A parsed line as contracts see it.
pub open spec fn outcome(result: Result<Command, ParseError>) -> Result<
    CommandView,
    ParseErrorView,
> {
    match result {
        Ok(command) => Ok(command@),
        Err(error) => Err(error@),
    }
}

impl Verb {
    /// The command that the groups of a match of [`Verb::pattern`] stand
    /// for: the name is group 1, the numbers are groups 2, 4, 6 and 8 in the
    /// order of [`Verb::usage`]. There is none where a group is missing or a
    /// number is out of range.
    pub open spec fn command(self, groups: Groups) -> Option<CommandView> {
        let name = group(groups, 1);
        let first = number(groups, 2);
        let second = number(groups, 4);
        let third = number(groups, 6);
        let fourth = number(groups, 8);
        match self {
            Verb::Point => if name is Some && first is Some && second is Some {
                Some(
                    CommandView::DrawShape {
                        name: name->0,
                        shape: Shape::Point(Point { x: first->0, y: second->0 }),
                    },
                )
            } else {
                None
            },
            Verb::Rectangle => if name is Some && first is Some && second is Some && third is Some
                && fourth is Some {
                Some(
                    CommandView::DrawShape {
                        name: name->0,
                        shape: Shape::Rectangle(
                            Rectangle {
                                corner: Point { x: first->0, y: second->0 },
                                w: third->0,
                                h: fourth->0,
                            },
                        ),
                    },
                )
            } else {
                None
            },
            Verb::Line => if name is Some && first is Some && second is Some && third is Some
                && fourth is Some {
                Some(
                    CommandView::DrawShape {
                        name: name->0,
                        shape: Shape::Line(
                            Line(
                                Point { x: first->0, y: second->0 },
                                Point { x: third->0, y: fourth->0 },
                            ),
                        ),
                    },
                )
            } else {
                None
            },
            Verb::Circle => if name is Some && first is Some && second is Some && third is Some {
                Some(
                    CommandView::DrawShape {
                        name: name->0,
                        shape: Shape::Circle(
                            Circle { center: Point { x: first->0, y: second->0 }, radius: third->0 },
                        ),
                    },
                )
            } else {
                None
            },
            Verb::Square => if name is Some && first is Some && second is Some && third is Some {
                Some(
                    CommandView::DrawShape {
                        name: name->0,
                        shape: Shape::Square(
                            Square { corner: Point { x: first->0, y: second->0 }, side: third->0 },
                        ),
                    },
                )
            } else {
                None
            },
            Verb::Move => if name is Some && first is Some && second is Some {
                Some(CommandView::MoveBy { name: name->0, dx: first->0, dy: second->0 })
            } else {
                None
            },
            Verb::Undo => Some(CommandView::Control(Control::Undo)),
            Verb::Redo => Some(CommandView::Control(Control::Redo)),
            Verb::Delete => if name is Some {
                Some(CommandView::Delete { name: name->0, deleted: None })
            } else {
                None
            },
        }
    }

    /// What parsing `line` as a line of this command gives, where `found` is
    /// what the search of `line` for [`Verb::pattern`] found: the command
    /// that the groups stand for, or the error that shows the usage and the
    /// line.
    pub open spec fn parsed(self, line: Seq<char>, found: Option<Groups>) -> Result<
        CommandView,
        ParseErrorView,
    > {
        if found is Some && self.command(found->0) is Some {
            Ok(self.command(found->0)->0)
        } else {
            Err(ParseErrorView::Malformed { expected: self.usage(), line })
        }
    }

    /// Makes the command of `line` from what the search of `line` for
    /// [`Verb::pattern`] found: see [`Verb::parsed`].
    pub fn from_groups(self, line: &str, found: Option<Vec<Option<String>>>) -> (result: Result<
        Command,
        ParseError,
    >)
        ensures
            outcome(result) == self.parsed(line@, found.deep_view()),
    {
        let made = match &found {
            Some(groups) => self.build(groups),
            None => None,
        };
        match made {
            Some(command) => Ok(command),
            None => Err(
                ParseError::Malformed {
                    expected: String::from_str(self.usage_text()),
                    line: String::from_str(line),
                },
            ),
        }
    }

    fn build(self, groups: &Vec<Option<String>>) -> (made: Option<Command>)
        ensures
            match made {
                Some(command) => self.command(groups.deep_view()) == Some(command@),
                None => self.command(groups.deep_view()) is None,
            },
    {
        match self {
            Verb::Undo => Some(Command::Control(Control::Undo)),
            Verb::Redo => Some(Command::Control(Control::Redo)),
            Verb::Delete => match group_at(groups, 1) {
                Some(name) => Some(Command::Delete(Delete::new(name.clone()))),
                None => None,
            },
            Verb::Point | Verb::Move => match (
                group_at(groups, 1),
                number_at(groups, 2),
                number_at(groups, 4),
            ) {
                (Some(name), Some(first), Some(second)) => Some(
                    if self == Verb::Point {
                        Command::DrawShape(
                            DrawShape::new(name.clone(), Shape::Point(Point { x: first, y: second })),
                        )
                    } else {
                        Command::MoveBy(MoveBy::new(name.clone(), first, second))
                    },
                ),
                _ => None,
            },
            Verb::Circle | Verb::Square => match (
                group_at(groups, 1),
                number_at(groups, 2),
                number_at(groups, 4),
                number_at(groups, 6),
            ) {
                (Some(name), Some(first), Some(second), Some(third)) => {
                    let at = Point { x: first, y: second };
                    let shape = if self == Verb::Circle {
                        Shape::Circle(Circle { center: at, radius: third })
                    } else {
                        Shape::Square(Square { corner: at, side: third })
                    };
                    Some(Command::DrawShape(DrawShape::new(name.clone(), shape)))
                },
                _ => None,
            },
            Verb::Rectangle | Verb::Line => match (
                group_at(groups, 1),
                number_at(groups, 2),
                number_at(groups, 4),
                number_at(groups, 6),
                number_at(groups, 8),
            ) {
                (Some(name), Some(first), Some(second), Some(third), Some(fourth)) => {
                    let at = Point { x: first, y: second };
                    let shape = if self == Verb::Rectangle {
                        Shape::Rectangle(Rectangle { corner: at, w: third, h: fourth })
                    } else {
                        Shape::Line(Line(at, Point { x: third, y: fourth }))
                    };
                    Some(Command::DrawShape(DrawShape::new(name.clone(), shape)))
                },
                _ => None,
            },
        }
    }

    /// Parses `line` as a line of this command: searches it for
    /// [`Verb::pattern`] and makes the command from what was found.
    pub fn parse(self, line: &str) -> (result: Result<Command, ParseError>)
        ensures
            outcome(result) == self.parsed(line@, captured(self.pattern(), line@)),
    {
        let found = captures(self.pattern_text(), line);
        self.from_groups(line, found)
    }
}

fn group_at(groups: &Vec<Option<String>>, index: usize) -> (text: Option<&String>)
    ensures
        match text {
            Some(text) => group(groups.deep_view(), index as int) == Some(text@),
            None => group(groups.deep_view(), index as int) is None,
        },
{
    if index < groups.len() {
        match &groups[index] {
            Some(text) => Some(text),
            None => None,
        }
    } else {
        None
    }
}

fn number_at(groups: &Vec<Option<String>>, index: usize) -> (value: Option<DataType>)
    ensures
        value == number(groups.deep_view(), index as int),
{
    match group_at(groups, index) {
        Some(text) => parse_i32(text.as_str()),
        None => None,
    }
}

/// Parses a line that draws a point: `point <name> <x:i32> <y:i32>`.
pub fn point(line: &str) -> (result: Result<Command, ParseError>)
    ensures
        outcome(result) == Verb::Point.parsed(line@, captured(Verb::Point.pattern(), line@)),
{
    Verb::Point.parse(line)
}

/// Parses a line that draws a rectangle:
/// `rectangle <name> <x:i32> <y:i32> <w:i32> <h:i32>`.
pub fn rectangle(line: &str) -> (result: Result<Command, ParseError>)
    ensures
        outcome(result) == Verb::Rectangle.parsed(
            line@,
            captured(Verb::Rectangle.pattern(), line@),
        ),
{
    Verb::Rectangle.parse(line)
}

/// Parses a line that draws a line:
/// `line <name> <x1:i32> <y1:i32> <x2:i32> <y2:i32>`.
pub fn line(text: &str) -> (result: Result<Command, ParseError>)
    ensures
        outcome(result) == Verb::Line.parsed(text@, captured(Verb::Line.pattern(), text@)),
{
    Verb::Line.parse(text)
}

/// Parses a line that draws a circle: `circle <name> <x:i32> <y:i32> <r:i32>`.
pub fn circle(line: &str) -> (result: Result<Command, ParseError>)
    ensures
        outcome(result) == Verb::Circle.parsed(line@, captured(Verb::Circle.pattern(), line@)),
{
    Verb::Circle.parse(line)
}

/// Parses a line that draws a square: `square <name> <x:i32> <y:i32> <l:i32>`.
pub fn square(line: &str) -> (result: Result<Command, ParseError>)
    ensures
        outcome(result) == Verb::Square.parsed(line@, captured(Verb::Square.pattern(), line@)),
{
    Verb::Square.parse(line)
}

/// Parses a line that moves a shape: `move <name> <dx:i32> <dy:i32>`.
pub fn move_by(line: &str) -> (result: Result<Command, ParseError>)
    ensures
        outcome(result) == Verb::Move.parsed(line@, captured(Verb::Move.pattern(), line@)),
{
    Verb::Move.parse(line)
}

/// Parses the line `undo`.
pub fn undo(line: &str) -> (result: Result<Command, ParseError>)
    ensures
        outcome(result) == Verb::Undo.parsed(line@, captured(Verb::Undo.pattern(), line@)),
{
    Verb::Undo.parse(line)
}

/// Parses the line `redo`.
pub fn redo(line: &str) -> (result: Result<Command, ParseError>)
    ensures
        outcome(result) == Verb::Redo.parsed(line@, captured(Verb::Redo.pattern(), line@)),
{
    Verb::Redo.parse(line)
}

/// Parses a line that deletes a shape: `delete <name>`.
pub fn delete(line: &str) -> (result: Result<Command, ParseError>)
    ensures
        outcome(result) == Verb::Delete.parsed(line@, captured(Verb::Delete.pattern(), line@)),
{
    Verb::Delete.parse(line)
}

} // verus!
