use clevis::command::{Command, Control};
use clevis::commander::cli_commander::parse_cmd;
use clevis::commander::cli_commander::parse_cmd::{
    circle, delete, move_by, point, rectangle, redo, square, undo, Verb,
};
use clevis::commander::cli_commander::{Next, Read, PROMPT};
use clevis::commander::{CliCommander, ParseError};
use clevis::executor::Executor;
use clevis::render::{RenderError, Renderer};
use clevis::shape::{Circle, Point, Shape, Shapes};
use std::collections::HashSet;
use std::io;
use std::io::{BufRead, Write};
use std::str;

struct Writer {
    buffer: Vec<u8>,
}

fn written(shape: &Shape) -> String {
    match shape {
        Shape::Point(point) => format!("{:?}", point),
        Shape::Line(line) => format!("{:?}", line),
        Shape::Rectangle(rectangle) => format!("{:?}", rectangle),
        Shape::Circle(circle) => format!("{:?}", circle),
        Shape::Square(square) => format!("{:?}", square),
    }
}

impl Renderer for Writer {
    fn init_frame(&mut self) -> Result<(), RenderError> {
        self.buffer.extend_from_slice(b"\n");
        Ok(())
    }

    fn finish_frame(&mut self) -> Result<(), RenderError> {
        Ok(())
    }

    fn render(&mut self, name: &str, shape: &Shape) -> Result<(), RenderError> {
        self.buffer.extend_from_slice(name.as_bytes());
        self.buffer.extend_from_slice(b" ");
        self.buffer.extend_from_slice(written(shape).as_bytes());
        self.buffer.extend_from_slice(b"\n");
        Ok(())
    }
}

fn commands_of<Reader: BufRead, Stdout: Write, Stderr: Write>(
    reader: Reader,
    mut stdout: Stdout,
    mut stderr: Stderr,
) -> Vec<Command> {
    let commander = CliCommander::new();
    let mut lines = reader.lines();
    let mut commands = Vec::new();
    loop {
        stdout.write_all(PROMPT.as_bytes()).unwrap();
        stdout.flush().unwrap();
        let read = match lines.next() {
            Some(Ok(line)) => Read::Line(line),
            Some(Err(error)) => Read::Failed(error.to_string()),
            None => Read::End,
        };
        match commander.next(read) {
            Next::Command(command) => commands.push(command),
            Next::Report(text) => stderr.write_all(text.as_bytes()).unwrap(),
            Next::End => break,
        }
    }
    commands
}

fn usage_error(usage: &str, line: &str) -> String {
    format!("The pattern should be like {:?} but got {:?}", usage, line)
}

#[test]
fn test_draw_shape() {
    let input = b"\
        point p1 0 0\n\
        rectangle rect 2 3 4 5\n\
        line l1 2 3 4 5\n\
        circle cic 23 4 45\n\
        square sq 32 34 56\n\
        foo\n\
        bar foo";
    let input = io::BufReader::new(&input[..]);
    let mut stdout = Vec::<u8>::new();
    let mut stderr = Vec::<u8>::new();
    let commander = commands_of(input, &mut stdout, &mut stderr);
    let mut shapes = Shapes::new();

    for mut cmd in commander {
        cmd.execute(&mut shapes).unwrap();
    }
    let mut buff = Writer { buffer: Vec::<u8>::new() };
    buff.render_shapes(&shapes).unwrap();
    let buff = buff.buffer;

    // check
    let correct_stdout = "> > > > > > > > ";
    assert_eq!(str::from_utf8(&stdout).unwrap(), correct_stdout);

    let correct_stderr = "\
        \"foo\" is not a valid command.\n\
        \"bar\" is not a valid command.\n\
        ";
    assert_eq!(str::from_utf8(&stderr).unwrap(), correct_stderr);

    let correct_buff = HashSet::from([
        "",
        "cic Circle { center: Point { x: 23, y: 4 }, radius: 45 }",
        "rect Rectangle { corner: Point { x: 2, y: 3 }, w: 4, h: 5 }",
        "l1 Line(Point { x: 2, y: 3 }, Point { x: 4, y: 5 })",
        "p1 Point { x: 0, y: 0 }",
        "sq Square { corner: Point { x: 32, y: 34 }, side: 56 }",
    ]);
    let mut count = 0;
    let buff = io::BufReader::new(&buff[..]);
    for line in buff.lines() {
        let line = line.unwrap();
        assert!(correct_buff.contains(&line[..]));
        count += 1;
    }
    assert_eq!(count, 6);
}

#[test]
fn test_from_string() {
    // point
    let cmd_point = point("Point p1 2 3").unwrap();
    assert_eq!(format!("{}", cmd_point.to_string()), "p1 Point { x: 2, y: 3 }");
    let cmd_point = point("point p1 4 5").unwrap();
    assert_eq!(format!("{}", cmd_point.to_string()), "p1 Point { x: 4, y: 5 }");
    assert!(!point("aaa bbb cc cc").is_ok());

    // rectangle
    let cmd_rectangle = rectangle("rectangle rect 2 3 4 5").unwrap();
    assert_eq!(
        format!("{}", cmd_rectangle.to_string()),
        "rect Rectangle { corner: Point { x: 2, y: 3 }, w: 4, h: 5 }"
    );
    let cmd_rectangle = rectangle("Rectangle rect 4 5 3 2").unwrap();
    assert_eq!(
        format!("{}", cmd_rectangle.to_string()),
        "rect Rectangle { corner: Point { x: 4, y: 5 }, w: 3, h: 2 }"
    );
    assert!(!rectangle("aaa bbb cc cc").is_ok());

    // line
    let cmd_line = parse_cmd::line("line line1 2 3 4 5").unwrap();
    assert_eq!(
        format!("{}", cmd_line.to_string()),
        "line1 Line(Point { x: 2, y: 3 }, Point { x: 4, y: 5 })"
    );
    let cmd_line = parse_cmd::line("line line2 4 5 3 2").unwrap();
    assert_eq!(
        format!("{}", cmd_line.to_string()),
        "line2 Line(Point { x: 4, y: 5 }, Point { x: 3, y: 2 })"
    );
    assert!(!parse_cmd::line("aaa bbb cc cc").is_ok());

    // circle
    let cmd_circle = circle("circle circle1 2 3 4").unwrap();
    assert_eq!(
        format!("{}", cmd_circle.to_string()),
        "circle1 Circle { center: Point { x: 2, y: 3 }, radius: 4 }"
    );
    let cmd_circle = circle("circle circle2 4 5 3").unwrap();
    assert_eq!(
        format!("{}", cmd_circle.to_string()),
        "circle2 Circle { center: Point { x: 4, y: 5 }, radius: 3 }"
    );
    assert!(!circle("aaa bbb cc cc").is_ok());

    // square
    let cmd_square = square("square square1 2 3 4").unwrap();
    assert_eq!(
        format!("{}", cmd_square.to_string()),
        "square1 Square { corner: Point { x: 2, y: 3 }, side: 4 }"
    );
    let cmd_square = square("sQuare square2 4 5 3").unwrap();
    assert_eq!(
        format!("{}", cmd_square.to_string()),
        "square2 Square { corner: Point { x: 4, y: 5 }, side: 3 }"
    );
    assert!(!square("aaa bbb cc cc").is_ok());

    let cmd_move = move_by("move aaa 3 -5").unwrap();
    assert_eq!(format!("{}", cmd_move.to_string()), "move aaa 3 -5");

    let undo = undo("undo").unwrap();
    assert_eq!(format!("{}", undo.to_string()), "undo");
    let redo = redo("redo").unwrap();
    assert_eq!(format!("{}", redo.to_string()), "redo");

    let delete = delete("delete name").unwrap();
    assert_eq!(
        format!("{}", delete.to_string()),
        r#"Delete "name" with deleted None"#
    );
}

fn expect_usage(result: Result<Command, ParseError>, key: Verb, line: &str) {
    match result {
        Err(error) => assert_eq!(
            format!("{}", error.to_string()),
            usage_error(key.usage_text(), line)
        ),
        Ok(_) => panic!(),
    }
}

#[test]
fn test_from_string_error() {
    let non_sense = "aaaaa";

    expect_usage(point(non_sense), Verb::Point, non_sense);
    expect_usage(rectangle(non_sense), Verb::Rectangle, non_sense);
    expect_usage(parse_cmd::line(non_sense), Verb::Line, non_sense);
    expect_usage(circle(non_sense), Verb::Circle, non_sense);
    expect_usage(square(non_sense), Verb::Square, non_sense);
    expect_usage(move_by(non_sense), Verb::Move, non_sense);
    expect_usage(undo(non_sense), Verb::Undo, non_sense);
    expect_usage(redo(non_sense), Verb::Redo, non_sense);
    expect_usage(delete(non_sense), Verb::Delete, non_sense);
}

#[test]
fn usage_of_each_verb() {
    assert_eq!(Verb::Point.usage_text(), "point <name> <x:i32> <y:i32>");
    assert_eq!(
        Verb::Rectangle.usage_text(),
        "rectangle <name> <x:i32> <y:i32> <w:i32> <h:i32>"
    );
    assert_eq!(Verb::Line.usage_text(), "line <name> <x1:i32> <y1:i32> <x2:i32> <y2:i32>");
    assert_eq!(Verb::Circle.usage_text(), "circle <name> <x:i32> <y:i32> <r:i32>");
    assert_eq!(Verb::Square.usage_text(), "square <name> <x:i32> <y:i32> <l:i32>");
    assert_eq!(Verb::Move.usage_text(), "move <name> <dx:i32> <dy:i32>");
    assert_eq!(Verb::Undo.usage_text(), "undo");
    assert_eq!(Verb::Redo.usage_text(), "redo");
    assert_eq!(Verb::Delete.usage_text(), "delete <name>");
    assert_eq!(Verb::Move.keyword_text(), "move");
    assert_eq!(Verb::Move.help_text(), "Move a shape");
    assert_eq!(Verb::Delete.help_text(), "Delete a shape by its name");
}

#[test]
fn the_usage_error_is_worded_as_in_the_manual() {
    let error = move_by("move a b c").unwrap_err();
    assert_eq!(
        error.to_string(),
        "The pattern should be like \"move <name> <dx:i32> <dy:i32>\" but got \"move a b c\""
    );
    assert!(matches!(
        error,
        ParseError::Malformed { expected, line }
            if expected == "move <name> <dx:i32> <dy:i32>" && line == "move a b c"
    ));
}

#[test]
fn an_unknown_word_is_no_valid_command() {
    let commander = CliCommander::new();
    let error = commander.parse_line("foo").unwrap_err();
    assert_eq!(error.to_string(), "\"foo\" is not a valid command.");
    assert!(matches!(error, ParseError::InvalidCommand(word) if word == "foo"));

    let mut shapes = Shapes::new();
    shapes.insert("p1".to_string(), Shape::Point(Point { x: 0, y: 0 }));
    let mut executor = Executor::new();
    executor
        .execute(commander.parse_line("point p2 1 1").unwrap(), &mut shapes)
        .unwrap();
    executor.undo(&mut shapes).unwrap();
    let before = shapes.entries();
    match commander.next(Read::Line("foo".to_string())) {
        Next::Report(text) => assert_eq!(text, "\"foo\" is not a valid command.\n"),
        _ => panic!("foo is no command"),
    }
    assert_eq!(shapes.entries(), before);
    assert_eq!(executor.executed().len(), 0);
    assert_eq!(executor.undone().len(), 1);
}

#[test]
fn the_unknown_word_is_reported_in_lowercase() {
    let commander = CliCommander::new();
    let error = commander.parse_line("  FoO 1 2").unwrap_err();
    assert_eq!(error.to_string(), "\"foo\" is not a valid command.");
}

#[test]
fn a_line_without_a_word_is_no_command() {
    let commander = CliCommander::new();
    for line in ["", "   ", "!point p 1 2", "- x"] {
        let error = commander.parse_line(line).unwrap_err();
        assert!(matches!(error, ParseError::NoCommand));
        assert_eq!(error.to_string(), "usage: command args ...");
    }
}

#[test]
fn the_verb_is_found_in_either_case() {
    let commander = CliCommander::new();
    let command = commander.parse_line("  POINT p1 +3 -5  ").unwrap();
    assert_eq!(command.to_string(), "p1 Point { x: 3, y: -5 }");
    let command = commander.parse_line("UnDo").unwrap();
    assert!(matches!(command, Command::Control(Control::Undo)));
    let command = commander.parse_line("rEdO  ").unwrap();
    assert!(matches!(command, Command::Control(Control::Redo)));
    let command = commander.parse_line("Delete p1").unwrap();
    assert_eq!(command.to_string(), "Delete \"p1\" with deleted None");
    let command = commander.parse_line("MOVE p1 -1 +1").unwrap();
    assert_eq!(command.to_string(), "move p1 -1 1");
}

#[test]
fn a_known_verb_with_wrong_arguments_shows_its_usage() {
    let commander = CliCommander::new();
    let cases = [
        ("point p1 1", Verb::Point),
        ("point p1 1 2 3", Verb::Point),
        ("point p1 a b", Verb::Point),
        ("rectangle r 1 2 3", Verb::Rectangle),
        ("line l 1 2 3 4 5", Verb::Line),
        ("circle c 1.5 2 3", Verb::Circle),
        ("square", Verb::Square),
        ("move", Verb::Move),
        ("undo now", Verb::Undo),
        ("redo 2", Verb::Redo),
        ("delete", Verb::Delete),
        ("delete a b", Verb::Delete),
    ];
    for (line, verb) in cases {
        let error = commander.parse_line(line).unwrap_err();
        assert_eq!(error.to_string(), usage_error(verb.usage_text(), line));
    }
}

#[test]
fn a_number_out_of_range_shows_the_usage() {
    let line = "point p1 2147483648 0";
    expect_usage(point(line), Verb::Point, line);
    let line = "move p1 0 -2147483649";
    expect_usage(move_by(line), Verb::Move, line);
    let command = point("point p1 2147483647 -2147483648").unwrap();
    assert_eq!(command.to_string(), "p1 Point { x: 2147483647, y: -2147483648 }");
}

#[test]
fn the_line_is_quoted_in_the_error_as_debug_does() {
    let line = "point \"p\"\t1 2";
    let error = point(line).unwrap_err();
    assert_eq!(error.to_string(), usage_error("point <name> <x:i32> <y:i32>", line));
    assert_eq!(
        error.to_string(),
        "The pattern should be like \"point <name> <x:i32> <y:i32>\" but got \"point \\\"p\\\"\\t1 2\""
    );
}

#[test]
fn from_groups_makes_the_command_of_the_groups() {
    let some = |text: &str| Some(text.to_string());
    let groups = vec![some("circle c 1 -2 3"), some("c"), some("1"), None, some("-2"), some("-"), some("3"), None];
    let command = Verb::Circle.from_groups("circle c 1 -2 3", Some(groups)).unwrap();
    match command {
        Command::DrawShape(draw) => {
            assert_eq!(draw.name, "c");
            assert_eq!(
                draw.shape,
                Shape::Circle(Circle { center: Point { x: 1, y: -2 }, radius: 3 })
            );
        },
        _ => panic!("a circle is drawn"),
    }
    let short = vec![some("circle c 1 -2"), some("c"), some("1"), None, some("-2"), some("-")];
    let error = Verb::Circle.from_groups("circle c 1 -2", Some(short)).unwrap_err();
    assert_eq!(
        error.to_string(),
        usage_error("circle <name> <x:i32> <y:i32> <r:i32>", "circle c 1 -2")
    );
    let unnamed = vec![some("delete"), None];
    assert!(Verb::Delete.from_groups("delete", Some(unnamed)).is_err());
    assert!(Verb::Delete.from_groups("delete x", None).is_err());
    assert!(matches!(
        Verb::Undo.from_groups("undo", Some(vec![some("undo")])),
        Ok(Command::Control(Control::Undo))
    ));
    assert!(Verb::Undo.from_groups("undone", None).is_err());
}

#[test]
fn a_registered_word_calls_its_verb() {
    let mut commander = CliCommander::default();
    assert_eq!(commander.lookup("point"), Some(Verb::Point));
    assert_eq!(commander.lookup("delete"), Some(Verb::Delete));
    assert_eq!(commander.lookup("remove"), None);
    assert_eq!(commander.register_parser("remove".to_string(), Verb::Delete), None);
    assert_eq!(commander.lookup("remove"), Some(Verb::Delete));
    assert_eq!(
        commander.register_parser("remove".to_string(), Verb::Undo),
        Some(Verb::Delete)
    );
    assert_eq!(commander.lookup("remove"), Some(Verb::Undo));
    assert_eq!(commander.lookup("point"), Some(Verb::Point));
    assert_eq!(
        commander.register_parser("point".to_string(), Verb::Circle),
        Some(Verb::Point)
    );
    let line = "point p 1 2";
    let error = commander.parse_line(line).unwrap_err();
    assert_eq!(
        error.to_string(),
        usage_error("circle <name> <x:i32> <y:i32> <r:i32>", line)
    );
}

#[test]
fn select_finds_the_verb_of_a_word() {
    let commander = CliCommander::new();
    assert!(matches!(commander.select(Some("square".to_string())), Ok(Verb::Square)));
    assert!(matches!(
        commander.select(Some("Square".to_string())),
        Err(ParseError::InvalidCommand(word)) if word == "Square"
    ));
    assert!(matches!(commander.select(None), Err(ParseError::NoCommand)));
}

#[test]
fn next_ends_with_the_input_and_reports_failures() {
    let commander = CliCommander::new();
    assert!(matches!(commander.next(Read::End), Next::End));
    match commander.next(Read::Failed("stream did not contain valid UTF-8".to_string())) {
        Next::Report(text) => assert_eq!(text, "stream did not contain valid UTF-8\n"),
        _ => panic!("a failure is reported"),
    }
    match commander.next(Read::Line("circle c 1 2 3".to_string())) {
        Next::Command(command) => {
            assert_eq!(command.to_string(), "c Circle { center: Point { x: 1, y: 2 }, radius: 3 }")
        },
        _ => panic!("the line is a command"),
    }
    match commander.next(Read::Line("circle c 1 2".to_string())) {
        Next::Report(text) => assert_eq!(
            text,
            "The pattern should be like \"circle <name> <x:i32> <y:i32> <r:i32>\" but got \"circle c 1 2\"\n"
        ),
        _ => panic!("the line is no command"),
    }
    assert_eq!(PROMPT, "> ");
}

#[test]
fn all_verbs_are_listed_once() {
    assert_eq!(
        Verb::all(),
        vec![
            Verb::Point,
            Verb::Rectangle,
            Verb::Line,
            Verb::Circle,
            Verb::Square,
            Verb::Move,
            Verb::Undo,
            Verb::Redo,
            Verb::Delete,
        ]
    );
    let commander = CliCommander::new();
    for verb in Verb::all() {
        assert_eq!(commander.lookup(verb.keyword_text()), Some(verb));
        assert!(verb.usage_text().starts_with(verb.keyword_text()));
    }
}
