use clevis::command::{Command, Control, Delete, DrawShape, MoveBy};
use clevis::executor::{ExecutionError, Executor};
use clevis::render::{RenderError, Renderer};
use clevis::shape::{Circle, Line, Point, Rectangle, Shape, Shapes, Square};

struct Writer {
    buffer: Vec<u8>,
}

fn written(shape: &Shape) -> String {
    match shape {
        Shape::Point(point) => format!("{:?}", point),
        Shape::Line(line) => format!("{:?}", line),
        Shape::Rectangle(rectangle) => format!("{:?}", rectangle),
        Shape::Circle(circle) => format!("{:?}", circle),
        Shape::Square(square) => format!("{:?}", square),
    }
}

impl Renderer for Writer {
    fn init_frame(&mut self) -> Result<(), RenderError> {
        self.buffer.extend_from_slice(b"\n");
        Ok(())
    }

    fn finish_frame(&mut self) -> Result<(), RenderError> {
        Ok(())
    }

    fn render(&mut self, name: &str, shape: &Shape) -> Result<(), RenderError> {
        self.buffer.extend_from_slice(name.as_bytes());
        self.buffer.extend_from_slice(b" ");
        self.buffer.extend_from_slice(written(shape).as_bytes());
        self.buffer.extend_from_slice(b"\n");
        Ok(())
    }
}

fn get_writer_render_result(shapes: &Shapes) -> String {
    let mut writer = Writer { buffer: Vec::new() };
    writer.render_shapes(shapes).unwrap();
    String::from_utf8(writer.buffer).unwrap()
}

fn get_cmd_vec() -> Vec<Command> {
    vec![
        Command::DrawShape(DrawShape::new(
            "clevis::shape::Point".into(),
            Shape::Point(Point::default()),
        )),
        Command::DrawShape(DrawShape::new(
            "clevis::shape::Circle".into(),
            Shape::Circle(Circle::default()),
        )),
        Command::DrawShape(DrawShape::new(
            "clevis::shape::Line".into(),
            Shape::Line(Line::default()),
        )),
        Command::DrawShape(DrawShape::new(
            "clevis::shape::Rectangle".into(),
            Shape::Rectangle(Rectangle::default()),
        )),
        Command::DrawShape(DrawShape::new(
            "clevis::shape::Square".into(),
            Shape::Square(Square::default()),
        )),
    ]
}

fn sorted(shapes: &Shapes) -> Vec<(String, Shape)> {
    let mut entries = shapes.entries();
    entries.sort_by(|left, right| left.0.cmp(&right.0));
    entries
}

fn draw(name: &str, x: i32, y: i32) -> Command {
    Command::DrawShape(DrawShape::new(name.to_string(), Shape::Point(Point { x, y })))
}

#[test]
fn test_redo_undo() {
    let mut shapes = Shapes::new();
    let mut executor = Executor::default();

    let undo = Command::Control(Control::Undo);
    assert_eq!(
        executor.execute(undo, &mut shapes).unwrap_err().to_string(),
        "No command to undo."
    );
    assert_eq!(get_writer_render_result(&shapes), "\n");

    let cmd1 = Command::DrawShape(DrawShape::new("p1".to_string(), Shape::Point(Point::default())));
    executor.execute(cmd1, &mut shapes).unwrap();
    assert_eq!(
        get_writer_render_result(&shapes),
        "\np1 Point { x: 0, y: 0 }\n"
    );

    let undo = Command::Control(Control::Undo);
    executor.execute(undo, &mut shapes).unwrap();
    assert_eq!(get_writer_render_result(&shapes), "\n");

    let redo = Command::Control(Control::Redo);
    executor.execute(redo, &mut shapes).unwrap();
    assert_eq!(
        get_writer_render_result(&shapes),
        "\np1 Point { x: 0, y: 0 }\n"
    );

    let undo = Command::Control(Control::Undo);
    executor.execute(undo, &mut shapes).unwrap();
    assert_eq!(get_writer_render_result(&shapes), "\n");

    let cmd1 = Command::DrawShape(DrawShape::new("p1".to_string(), Shape::Point(Point::default())));
    executor.execute(cmd1, &mut shapes).unwrap();
    assert_eq!(
        get_writer_render_result(&shapes),
        "\np1 Point { x: 0, y: 0 }\n"
    );

    let redo = Command::Control(Control::Redo);
    assert_eq!(
        executor.execute(redo, &mut shapes).unwrap_err().to_string(),
        "No command to redo."
    );
    assert_eq!(
        get_writer_render_result(&shapes),
        "\np1 Point { x: 0, y: 0 }\n"
    );
}

#[test]
fn test_cmd_vec() {
    let commands = get_cmd_vec();
    let mut exe = Executor::default();
    let mut shapes = Shapes::default();
    for cmd in commands {
        exe.execute(cmd, &mut shapes).unwrap();
    }
    assert_eq!(shapes.len(), 5);
}

#[test]
fn commands_and_as_many_undos_lead_back() {
    let mut shapes = Shapes::new();
    let mut executor = Executor::new();
    executor.execute(draw("kept", 1, 2), &mut shapes).unwrap();
    executor
        .execute(
            Command::DrawShape(DrawShape::new(
                "circle".to_string(),
                Shape::Circle(Circle { center: Point { x: 0, y: 0 }, radius: 3 }),
            )),
            &mut shapes,
        )
        .unwrap();
    let before = sorted(&shapes);
    let history = executor.executed().len();

    let commands = vec![
        draw("new", 5, 5),
        Command::MoveBy(MoveBy::new("kept".to_string(), 10, -10)),
        Command::Delete(Delete::new("circle".to_string())),
        Command::MoveBy(MoveBy::new("new".to_string(), i32::MAX, i32::MIN)),
        draw("circle", 9, 9),
        Command::Delete(Delete::new("kept".to_string())),
    ];
    let count = commands.len();
    for command in commands {
        executor.execute(command, &mut shapes).unwrap();
    }
    assert_eq!(executor.executed().len(), history + count);
    assert_ne!(sorted(&shapes), before);
    for _ in 0..count {
        executor.undo(&mut shapes).unwrap();
    }
    assert_eq!(sorted(&shapes), before);
    assert_eq!(executor.executed().len(), history);
    assert_eq!(executor.undone().len(), count);
}

#[test]
fn undo_redo_undo_leads_where_undo_led() {
    for last in 0..3 {
        let mut shapes = Shapes::new();
        let mut executor = Executor::new();
        for command in get_cmd_vec() {
            executor.execute(command, &mut shapes).unwrap();
        }
        let replay = vec![
            draw("a", 1, 1),
            Command::MoveBy(MoveBy::new("a".to_string(), 2, 3)),
            Command::Delete(Delete::new("a".to_string())),
        ];
        for command in replay.into_iter().take(last + 1) {
            executor.execute(command, &mut shapes).unwrap();
        }
        executor.undo(&mut shapes).unwrap();
        let scene = sorted(&shapes);
        let executed = executor.executed().len();
        let undone = executor.undone().len();
        executor.redo(&mut shapes).unwrap();
        executor.undo(&mut shapes).unwrap();
        assert_eq!(sorted(&shapes), scene);
        assert_eq!(executor.executed().len(), executed);
        assert_eq!(executor.undone().len(), undone);
    }
}

#[test]
fn a_new_command_after_undos_leaves_nothing_to_redo() {
    let mut shapes = Shapes::new();
    let mut executor = Executor::new();
    executor.execute(draw("a", 1, 1), &mut shapes).unwrap();
    executor.execute(draw("b", 2, 2), &mut shapes).unwrap();
    executor.undo(&mut shapes).unwrap();
    executor.undo(&mut shapes).unwrap();
    assert_eq!(executor.undone().len(), 2);
    executor.execute(draw("c", 3, 3), &mut shapes).unwrap();
    assert_eq!(executor.undone().len(), 0);
    let error = executor.redo(&mut shapes).unwrap_err();
    assert!(matches!(error, ExecutionError::NoCmdToRedo));
    assert_eq!(error.to_string(), "No command to redo.");
    assert_eq!(sorted(&shapes), vec![("c".to_string(), Shape::Point(Point { x: 3, y: 3 }))]);
}

#[test]
fn a_failed_command_leaves_the_history_as_it_was() {
    let mut shapes = Shapes::new();
    let mut executor = Executor::new();
    executor.execute(draw("a", 1, 1), &mut shapes).unwrap();
    executor.undo(&mut shapes).unwrap();
    let error = executor
        .execute(Command::Delete(Delete::new("nobody".to_string())), &mut shapes)
        .unwrap_err();
    assert!(matches!(&error, ExecutionError::NotFound(name) if name == "nobody"));
    assert_eq!(executor.executed().len(), 0);
    assert_eq!(executor.undone().len(), 1);
    assert_eq!(shapes.len(), 0);
    executor.redo(&mut shapes).unwrap();
    assert_eq!(shapes.len(), 1);
}

#[test]
fn a_command_whose_undo_fails_is_lost() {
    let mut shapes = Shapes::new();
    let mut executor = Executor::new();
    executor.execute(draw("a", 1, 1), &mut shapes).unwrap();
    executor
        .execute(Command::MoveBy(MoveBy::new("a".to_string(), 1, 1)), &mut shapes)
        .unwrap();
    shapes.remove("a");
    let error = executor.undo(&mut shapes).unwrap_err();
    assert!(matches!(&error, ExecutionError::NotFound(name) if name == "a"));
    assert_eq!(executor.executed().len(), 1);
    assert_eq!(executor.undone().len(), 0);
}

#[test]
fn a_command_whose_redo_fails_is_lost() {
    let mut shapes = Shapes::new();
    let mut executor = Executor::new();
    executor.execute(draw("a", 1, 1), &mut shapes).unwrap();
    executor
        .execute(Command::MoveBy(MoveBy::new("a".to_string(), 1, 1)), &mut shapes)
        .unwrap();
    executor.undo(&mut shapes).unwrap();
    shapes.remove("a");
    let error = executor.redo(&mut shapes).unwrap_err();
    assert!(matches!(&error, ExecutionError::NotFound(name) if name == "a"));
    assert_eq!(executor.executed().len(), 1);
    assert_eq!(executor.undone().len(), 0);
}

#[test]
fn undo_with_an_empty_history_changes_nothing() {
    let mut shapes = Shapes::new();
    shapes.insert("a".to_string(), Shape::Point(Point { x: 1, y: 1 }));
    let mut executor = Executor::new();
    let error = executor.undo(&mut shapes).unwrap_err();
    assert!(matches!(error, ExecutionError::NoCmdToUndo));
    assert_eq!(error.to_string(), "No command to undo.");
    assert_eq!(shapes.len(), 1);
    assert_eq!(executor.executed().len(), 0);
    assert_eq!(executor.undone().len(), 0);
}

#[test]
fn control_commands_never_enter_the_history() {
    let mut shapes = Shapes::new();
    let mut executor = Executor::new();
    executor.execute(draw("a", 1, 1), &mut shapes).unwrap();
    executor.execute(Command::Control(Control::Undo), &mut shapes).unwrap();
    assert_eq!(executor.executed().len(), 0);
    assert_eq!(executor.undone().len(), 1);
    executor.execute(Command::Control(Control::Redo), &mut shapes).unwrap();
    assert_eq!(executor.executed().len(), 1);
    assert_eq!(executor.undone().len(), 0);
    assert!(matches!(executor.executed()[0], Command::DrawShape(_)));
}

#[test]
fn redo_restores_the_edit_undone_last() {
    let mut shapes = Shapes::new();
    let mut executor = Executor::new();
    executor.execute(draw("a", 1, 1), &mut shapes).unwrap();
    executor.execute(draw("b", 2, 2), &mut shapes).unwrap();
    executor.undo(&mut shapes).unwrap();
    executor.undo(&mut shapes).unwrap();
    assert_eq!(shapes.len(), 0);
    executor.redo(&mut shapes).unwrap();
    assert_eq!(sorted(&shapes), vec![("a".to_string(), Shape::Point(Point { x: 1, y: 1 }))]);
    executor.redo(&mut shapes).unwrap();
    assert_eq!(shapes.len(), 2);
}

#[test]
fn execute_logged_returns_what_is_to_be_logged() {
    let mut shapes = Shapes::new();
    let mut executor = Executor::new();
    assert_eq!(
        executor.execute_logged(draw("a", 1, 2), &mut shapes),
        vec!["a Point { x: 1, y: 2 }"]
    );
    assert_eq!(shapes.len(), 1);
    assert_eq!(
        executor.execute_logged(Command::Delete(Delete::new("b".to_string())), &mut shapes),
        vec!["Delete \"b\" with deleted None", "Shape \"b\" is not found."]
    );
    assert_eq!(
        executor.execute_logged(Command::Control(Control::Redo), &mut shapes),
        vec!["redo", "No command to redo."]
    );
    assert_eq!(
        executor.execute_logged(Command::Control(Control::Undo), &mut shapes),
        vec!["undo"]
    );
    assert_eq!(shapes.len(), 0);
    assert_eq!(executor.undone().len(), 1);
}

#[test]
fn a_drawing_over_a_drawing_of_the_run_is_taken_back_too() {
    let mut shapes = Shapes::new();
    shapes.insert("kept".to_string(), Shape::Point(Point { x: 7, y: 7 }));
    let mut executor = Executor::new();
    let before = sorted(&shapes);
    executor.execute(draw("a", 1, 1), &mut shapes).unwrap();
    executor.execute(draw("a", 2, 2), &mut shapes).unwrap();
    executor.undo(&mut shapes).unwrap();
    assert_eq!(shapes.get("a"), None);
    executor.undo(&mut shapes).unwrap();
    assert_eq!(sorted(&shapes), before);
    assert_eq!(executor.executed().len(), 0);
}

#[test]
fn a_drawing_over_a_shape_of_the_scene_loses_it() {
    let mut shapes = Shapes::new();
    shapes.insert("a".to_string(), Shape::Point(Point { x: 7, y: 7 }));
    shapes.insert("b".to_string(), Shape::Point(Point { x: 8, y: 8 }));
    let mut executor = Executor::new();
    executor.execute(draw("a", 1, 1), &mut shapes).unwrap();
    executor
        .execute(Command::MoveBy(MoveBy::new("b".to_string(), 1, 1)), &mut shapes)
        .unwrap();
    executor.undo(&mut shapes).unwrap();
    executor.undo(&mut shapes).unwrap();
    assert_eq!(sorted(&shapes), vec![("b".to_string(), Shape::Point(Point { x: 8, y: 8 }))]);
}

#[test]
fn a_deletion_makes_up_for_a_lost_name() {
    let mut shapes = Shapes::new();
    shapes.insert("a".to_string(), Shape::Point(Point { x: 7, y: 7 }));
    let mut executor = Executor::new();
    let before = sorted(&shapes);
    executor
        .execute(Command::Delete(Delete::new("a".to_string())), &mut shapes)
        .unwrap();
    executor.execute(draw("a", 1, 1), &mut shapes).unwrap();
    executor.execute(draw("a", 2, 2), &mut shapes).unwrap();
    executor
        .execute(Command::MoveBy(MoveBy::new("a".to_string(), 1, 1)), &mut shapes)
        .unwrap();
    executor.execute(draw("a", 3, 3), &mut shapes).unwrap();
    executor.undo(&mut shapes).unwrap();
    assert!(executor.undo(&mut shapes).is_err());
    executor.undo(&mut shapes).unwrap();
    executor.undo(&mut shapes).unwrap();
    executor.undo(&mut shapes).unwrap();
    assert_eq!(sorted(&shapes), before);
    assert_eq!(executor.executed().len(), 0);
    assert_eq!(executor.undone().len(), 4);
}
