//! Geometric shapes on an integer grid, and the scene that holds them by name.

use crate::text::{decimal, push_decimal};
use vstd::prelude::*;

verus! {

/// The type of every coordinate and length.
pub type DataType = i32;

/// A coordinate moved by `delta`. The sum is taken modulo 2^32, so that every
/// move is defined and is undone by the opposite move.
pub open spec fn shifted(value: DataType, delta: DataType) -> DataType {
    value.wrapping_add(delta)
}

/// The distance that undoes `delta`: `-delta`, taken modulo 2^32.
pub open spec fn opposite(delta: DataType) -> DataType {
    0i32.wrapping_sub(delta)
}

/// Computes [`opposite`].
pub fn opposite_of(delta: DataType) -> (r: DataType)
    ensures
        r == opposite(delta),
        delta > DataType::MIN ==> r == -delta,
{
    0i32.wrapping_sub(delta)
}

/// Where the sum of a coordinate and a distance is in the range of
/// [`DataType`], the moved coordinate is that sum.
pub proof fn lemma_shifted_in_range(value: DataType, delta: DataType)
    requires
        DataType::MIN <= value + delta <= DataType::MAX,
    ensures
        shifted(value, delta) == value + delta,
{
}

/// Moving by a distance and then by its opposite leads back.
pub proof fn lemma_shifted_back(value: DataType, delta: DataType)
    ensures
        shifted(shifted(value, delta), opposite(delta)) == value,
        shifted(shifted(value, opposite(delta)), delta) == value,
        opposite(opposite(delta)) == delta,
{
}

/// A point.
#[derive(Debug, Copy, Clone, PartialEq, Eq, Structural)]
pub struct Point {
    pub x: DataType,
    pub y: DataType,
}

impl Point {
    /// This point moved by `(dx, dy)`.
    pub open spec fn moved_by(self, dx: DataType, dy: DataType) -> Point {
        Point { x: shifted(self.x, dx), y: shifted(self.y, dy) }
    }

    /// Moves the shape by `(x, y)`.
    pub fn move_by(&mut self, x: DataType, y: DataType)
        ensures
            *final(self) == old(self).moved_by(x, y),
    {
        self.x = self.x.wrapping_add(x);
        self.y = self.y.wrapping_add(y);
    }

    /// How this point is written: `Point { x: 1, y: -2 }`.
    pub open spec fn description(self) -> Seq<char> {
        "Point { x: "@ + decimal(self.x as int) + ", y: "@ + decimal(self.y as int) + " }"@
    }

    fn describe_into(&self, text: &mut String)
        ensures
            final(text)@ == old(text)@ + self.description(),
    {
        text.append("Point { x: ");
        push_decimal(text, self.x);
        text.append(", y: ");
        push_decimal(text, self.y);
        text.append(" }");
        assert(final(text)@ =~= old(text)@ + self.description());
    }

    /// Moving a point and then moving it by the opposite distances
    /// gives the point back.
    pub proof fn lemma_moved_back(self, dx: DataType, dy: DataType)
        ensures
            self.moved_by(dx, dy).moved_by(opposite(dx), opposite(dy)) == self,
            self.moved_by(opposite(dx), opposite(dy)).moved_by(dx, dy) == self,
    {
        lemma_shifted_back(self.x, dx);
        lemma_shifted_back(self.y, dy);
    }
}

impl Default for Point {
    /// The shape at the origin, with no size.
    fn default() -> (p: Point)
        ensures
            p == (Point { x: 0, y: 0 }),
    {
        Point { x: 0, y: 0 }
    }
}

/// A rectangle: a corner, a width and a height.
#[derive(Debug, Copy, Clone, PartialEq, Eq, Structural)]
pub struct Rectangle {
    pub corner: Point,
    pub w: DataType,
    pub h: DataType,
}

impl Rectangle {
    /// This rectangle with its corner moved by `(dx, dy)`.
    pub open spec fn moved_by(self, dx: DataType, dy: DataType) -> Rectangle {
        Rectangle { corner: self.corner.moved_by(dx, dy), w: self.w, h: self.h }
    }

    /// Moves the shape by `(x, y)`.
    pub fn move_by(&mut self, x: DataType, y: DataType)
        ensures
            *final(self) == old(self).moved_by(x, y),
    {
        self.corner.move_by(x, y);
    }
}

impl Default for Rectangle {
    /// The shape at the origin, with no size.
    fn default() -> (r: Rectangle)
        ensures
            r == (Rectangle { corner: Point { x: 0, y: 0 }, w: 0, h: 0 }),
    {
        Rectangle { corner: Point { x: 0, y: 0 }, w: 0, h: 0 }
    }
}

/// A line between two points.
#[derive(Debug, Copy, Clone, PartialEq, Eq, Structural)]
pub struct Line(pub Point, pub Point);

impl Line {
    /// This line with both ends moved by `(dx, dy)`.
    pub open spec fn moved_by(self, dx: DataType, dy: DataType) -> Line {
        Line(self.0.moved_by(dx, dy), self.1.moved_by(dx, dy))
    }

    /// Moves the shape by `(x, y)`.
    pub fn move_by(&mut self, x: DataType, y: DataType)
        ensures
            *final(self) == old(self).moved_by(x, y),
    {
        self.0.move_by(x, y);
        self.1.move_by(x, y);
    }
}

impl Default for Line {
    /// The shape at the origin, with no size.
    fn default() -> (l: Line)
        ensures
            l == Line(Point { x: 0, y: 0 }, Point { x: 0, y: 0 }),
    {
        Line(Point { x: 0, y: 0 }, Point { x: 0, y: 0 })
    }
}

/// A circle: a center and a radius.
#[derive(Debug, Copy, Clone, PartialEq, Eq, Structural)]
pub struct Circle {
    pub center: Point,
    pub radius: DataType,
}

impl Circle {
    /// This circle with its center moved by `(dx, dy)`.
    pub open spec fn moved_by(self, dx: DataType, dy: DataType) -> Circle {
        Circle { center: self.center.moved_by(dx, dy), radius: self.radius }
    }

    /// Moves the shape by `(x, y)`.
    pub fn move_by(&mut self, x: DataType, y: DataType)
        ensures
            *final(self) == old(self).moved_by(x, y),
    {
        self.center.move_by(x, y);
    }
}

impl Default for Circle {
    /// The shape at the origin, with no size.
    fn default() -> (c: Circle)
        ensures
            c == (Circle { center: Point { x: 0, y: 0 }, radius: 0 }),
    {
        Circle { center: Point { x: 0, y: 0 }, radius: 0 }
    }
}

/// A square: a corner and the length of a side.
#[derive(Debug, Copy, Clone, PartialEq, Eq, Structural)]
pub struct Square {
    pub corner: Point,
    pub side: DataType,
}

impl Square {
    /// This square with its corner moved by `(dx, dy)`.
    pub open spec fn moved_by(self, dx: DataType, dy: DataType) -> Square {
        Square { corner: self.corner.moved_by(dx, dy), side: self.side }
    }

    /// Moves the shape by `(x, y)`.
    pub fn move_by(&mut self, x: DataType, y: DataType)
        ensures
            *final(self) == old(self).moved_by(x, y),
    {
        self.corner.move_by(x, y);
    }
}

impl Default for Square {
    /// The shape at the origin, with no size.
    fn default() -> (s: Square)
        ensures
            s == (Square { corner: Point { x: 0, y: 0 }, side: 0 }),
    {
        Square { corner: Point { x: 0, y: 0 }, side: 0 }
    }
}

/// Any shape that a scene can hold.
#[derive(Debug, Copy, Clone, PartialEq, Eq, Structural)]
pub enum Shape {
    Point(Point),
    Line(Line),
    Rectangle(Rectangle),
    Circle(Circle),
    Square(Square),
}

impl Shape {
    /// This shape moved by `(dx, dy)`: its position changes, its kind
    /// and its size stay.
    pub open spec fn moved_by(self, dx: DataType, dy: DataType) -> Shape {
        match self {
            Shape::Point(p) => Shape::Point(p.moved_by(dx, dy)),
            Shape::Line(l) => Shape::Line(l.moved_by(dx, dy)),
            Shape::Rectangle(r) => Shape::Rectangle(r.moved_by(dx, dy)),
            Shape::Circle(c) => Shape::Circle(c.moved_by(dx, dy)),
            Shape::Square(s) => Shape::Square(s.moved_by(dx, dy)),
        }
    }

    /// How this shape is written, for example
    /// `Circle { center: Point { x: 0, y: 0 }, radius: 3 }`.
    pub open spec fn description(self) -> Seq<char> {
        match self {
            Shape::Point(p) => p.description(),
            Shape::Line(l) => "Line("@ + l.0.description() + ", "@ + l.1.description() + ")"@,
            Shape::Rectangle(r) => "Rectangle { corner: "@ + r.corner.description() + ", w: "@
                + decimal(r.w as int) + ", h: "@ + decimal(r.h as int) + " }"@,
            Shape::Circle(c) => "Circle { center: "@ + c.center.description() + ", radius: "@
                + decimal(c.radius as int) + " }"@,
            Shape::Square(s) => "Square { corner: "@ + s.corner.description() + ", side: "@
                + decimal(s.side as int) + " }"@,
        }
    }

    /// Appends [`Shape::description`] to `text`.
    pub fn describe_into(&self, text: &mut String)
        ensures
            final(text)@ == old(text)@ + self.description(),
    {
        match self {
            Shape::Point(p) => p.describe_into(text),
            Shape::Line(l) => {
                text.append("Line(");
                l.0.describe_into(text);
                text.append(", ");
                l.1.describe_into(text);
                text.append(")");
            },
            Shape::Rectangle(r) => {
                text.append("Rectangle { corner: ");
                r.corner.describe_into(text);
                text.append(", w: ");
                push_decimal(text, r.w);
                text.append(", h: ");
                push_decimal(text, r.h);
                text.append(" }");
            },
            Shape::Circle(c) => {
                text.append("Circle { center: ");
                c.center.describe_into(text);
                text.append(", radius: ");
                push_decimal(text, c.radius);
                text.append(" }");
            },
            Shape::Square(s) => {
                text.append("Square { corner: ");
                s.corner.describe_into(text);
                text.append(", side: ");
                push_decimal(text, s.side);
                text.append(" }");
            },
        }
        assert(final(text)@ =~= old(text)@ + self.description());
    }

    /// This shape in words: [`Shape::description`].
    pub fn describe(&self) -> (text: String)
        ensures
            text@ == self.description(),
    {
        let mut text = String::new();
        self.describe_into(&mut text);
        assert(text@ =~= self.description());
        text
    }

    /// Moves the shape by `(x, y)`.
    pub fn move_by(&mut self, x: DataType, y: DataType)
        ensures
            *final(self) == old(self).moved_by(x, y),
    {
        match self {
            Shape::Point(p) => p.move_by(x, y),
            Shape::Line(l) => l.move_by(x, y),
            Shape::Rectangle(r) => r.move_by(x, y),
            Shape::Circle(c) => c.move_by(x, y),
            Shape::Square(s) => s.move_by(x, y),
        }
    }

    /// Moving a shape and then moving it by the opposite distances
    /// gives the shape back, whatever the distances are.
    pub proof fn lemma_moved_back(self, dx: DataType, dy: DataType)
        ensures
            self.moved_by(dx, dy).moved_by(opposite(dx), opposite(dy)) == self,
            self.moved_by(opposite(dx), opposite(dy)).moved_by(dx, dy) == self,
    {
        match self {
            Shape::Point(p) => p.lemma_moved_back(dx, dy),
            Shape::Line(l) => {
                l.0.lemma_moved_back(dx, dy);
                l.1.lemma_moved_back(dx, dy);
            },
            Shape::Rectangle(r) => r.corner.lemma_moved_back(dx, dy),
            Shape::Circle(c) => c.center.lemma_moved_back(dx, dy),
            Shape::Square(s) => s.corner.lemma_moved_back(dx, dy),
        }
    }
}

/// What a scene is: a finite map from names to shapes.
pub type Scene = Map<Seq<char>, Shape>;

/// The scene: the shapes that were drawn, each under its own name.
#[derive(Debug)]
pub struct Shapes {
    names: Vec<String>,
    shapes: Vec<Shape>,
}

impl View for Shapes {
    type V = Scene;

    closed spec fn view(&self) -> Scene {
        scene_of(keys_of(self.names@), self.shapes@)
    }
}

spec fn keys_of(names: Seq<String>) -> Seq<Seq<char>> {
    names.map_values(|name: String| name@)
}

spec fn scene_of(keys: Seq<Seq<char>>, shapes: Seq<Shape>) -> Scene {
    Map::new(|name: Seq<char>| keys.contains(name), |name: Seq<char>| shapes[keys.index_of(name)])
}

proof fn lemma_scene_of(keys: Seq<Seq<char>>, shapes: Seq<Shape>)
    requires
        keys.no_duplicates(),
        keys.len() == shapes.len(),
    ensures
        scene_of(keys, shapes).dom() =~= keys.to_set(),
        scene_of(keys, shapes).dom().finite(),
        scene_of(keys, shapes).dom().len() == keys.len(),
        forall|i: int|
            0 <= i < keys.len() ==> #[trigger] scene_of(keys, shapes)[keys[i]] == shapes[i],
{
    assert forall|name: Seq<char>|
        scene_of(keys, shapes).dom().contains(name) == keys.to_set().contains(name) by {}
    keys.unique_seq_to_set();
    assert forall|i: int| 0 <= i < keys.len() implies #[trigger] scene_of(keys, shapes)[keys[i]]
        == shapes[i] by {
        assert(keys.contains(keys[i]));
        let j = keys.index_of(keys[i]);
        assert(0 <= j < keys.len() && keys[j] == keys[i]);
    }
}

proof fn lemma_scene_pushed(keys: Seq<Seq<char>>, shapes: Seq<Shape>, key: Seq<char>, shape: Shape)
    requires
        keys.no_duplicates(),
        keys.len() == shapes.len(),
        !keys.contains(key),
    ensures
        keys.push(key).no_duplicates(),
        scene_of(keys.push(key), shapes.push(shape)) =~= scene_of(keys, shapes).insert(key, shape),
{
    let more = keys.push(key);
    lemma_scene_of(keys, shapes);
    lemma_scene_of(more, shapes.push(shape));
    assert forall|n: Seq<char>| more.contains(n) <==> (n == key || keys.contains(n)) by {
        if more.contains(n) {
            let j = more.index_of(n);
            if j < keys.len() {
                assert(keys[j] == n);
            }
        } else if n == key {
            assert(more[keys.len() as int] == n);
        } else if keys.contains(n) {
            assert(more[keys.index_of(n)] == n);
        }
    }
    assert forall|n: Seq<char>| keys.contains(n) implies scene_of(more, shapes.push(shape))[n]
        == scene_of(keys, shapes)[n] by {
        assert(more[keys.index_of(n)] == n);
    }
    assert(more[keys.len() as int] == key);
}

proof fn lemma_scene_removed(keys: Seq<Seq<char>>, shapes: Seq<Shape>, i: int)
    requires
        keys.no_duplicates(),
        keys.len() == shapes.len(),
        0 <= i < keys.len(),
    ensures
        keys.remove(i).no_duplicates(),
        scene_of(keys.remove(i), shapes.remove(i)) =~= scene_of(keys, shapes).remove(keys[i]),
{
    let fewer = keys.remove(i);
    let rest = shapes.remove(i);
    lemma_scene_of(keys, shapes);
    lemma_scene_of(fewer, rest);
    assert forall|n: Seq<char>| fewer.contains(n) <==> (n != keys[i] && keys.contains(n)) by {
        if fewer.contains(n) {
            let j = fewer.index_of(n);
            if j < i {
                assert(keys[j] == n);
            } else {
                assert(keys[j + 1] == n);
            }
        } else if n != keys[i] && keys.contains(n) {
            let j = keys.index_of(n);
            if j < i {
                assert(fewer[j] == n);
            } else {
                assert(fewer[j - 1] == n);
            }
        }
    }
    assert forall|n: Seq<char>| fewer.contains(n) implies scene_of(fewer, rest)[n] == scene_of(
        keys,
        shapes,
    )[n] by {
        let j = fewer.index_of(n);
        if j < i {
            assert(keys[j] == n);
        } else {
            assert(keys[j + 1] == n);
        }
    }
}

impl Shapes {
    #[verifier::type_invariant]
    spec fn well_formed(self) -> bool {
        &&& self.names@.len() == self.shapes@.len()
        &&& keys_of(self.names@).no_duplicates()
    }

    /// The names in the order in which the scene hands its entries out.
    pub closed spec fn keys(self) -> Seq<Seq<char>> {
        keys_of(self.names@)
    }

    /// The entries of the scene, each once, in the order in which the scene
    /// hands them out.
    pub open spec fn listed(self) -> Seq<(Seq<char>, Shape)> {
        Seq::new(self.keys().len(), |i: int| (self.keys()[i], self@[self.keys()[i]]))
    }

    /// An empty scene.
    pub fn new() -> (scene: Self)
        ensures
            scene@ == Scene::empty(),
    {
        let scene = Shapes { names: Vec::new(), shapes: Vec::new() };
        assert(scene@ =~= Scene::empty());
        scene
    }

    /// The number of shapes in the scene.
    pub fn len(&self) -> (n: usize)
        ensures
            self@.dom().finite(),
            n == self@.dom().len(),
    {
        proof {
            use_type_invariant(self);
            lemma_scene_of(self.keys(), self.shapes@);
        }
        self.names.len()
    }

    fn position(&self, name: &str) -> (r: Option<usize>)
        ensures
            match r {
                Some(i) => i < self.names@.len() && self.keys()[i as int] == name@,
                None => !self.keys().contains(name@),
            },
    {
        let key = String::from_str(name);
        let mut i: usize = 0;
        while i < self.names.len()
            invariant
                i <= self.names@.len(),
                key@ == name@,
                forall|j: int| 0 <= j < i ==> self.keys()[j] != name@,
            decreases self.names@.len() - i,
        {
            if self.names[i] == key {
                return Some(i);
            }
            i += 1;
        }
        None
    }

    /// The shape called `name`, if the scene has one.
    pub fn get(&self, name: &str) -> (r: Option<&Shape>)
        ensures
            r == (if self@.contains_key(name@) {
                Some(&self@[name@])
            } else {
                None
            }),
    {
        proof {
            use_type_invariant(self);
            lemma_scene_of(self.keys(), self.shapes@);
        }
        match self.position(name) {
            Some(i) => Some(&self.shapes[i]),
            None => None,
        }
    }

    /// The shape called `name`, to be changed in place. Whatever the caller
    /// makes of it is what the scene then holds under that name.
    pub fn get_mut(&mut self, name: &str) -> (r: Option<&mut Shape>)
        ensures
            match r {
                Some(shape) => old(self)@.contains_key(name@) && *shape == old(self)@[name@]
                    && final(self)@ == old(self)@.insert(name@, *final(shape)),
                None => !old(self)@.contains_key(name@) && final(self)@ == old(self)@,
            },
    {
        proof {
            use_type_invariant(&*self);
            lemma_scene_of(self.keys(), self.shapes@);
        }
        match self.position(name) {
            Some(i) => Some(&mut self.shapes[i]),
            None => None,
        }
    }

    /// Puts `shape` into the scene under `name`. A shape that had this name
    /// before is replaced, and handed back.
    pub fn insert(&mut self, name: String, shape: Shape) -> (previous: Option<Shape>)
        ensures
            final(self)@ == old(self)@.insert(name@, shape),
            previous == (if old(self)@.contains_key(name@) {
                Some(old(self)@[name@])
            } else {
                None
            }),
    {
        proof {
            use_type_invariant(&*self);
            lemma_scene_of(self.keys(), self.shapes@);
        }
        match self.position(name.as_str()) {
            Some(i) => {
                let previous = self.shapes[i];
                self.shapes[i] = shape;
                proof {
                    lemma_scene_of(self.keys(), self.shapes@);
                    assert(self@ =~= old(self)@.insert(name@, shape));
                }
                Some(previous)
            },
            None => {
                let ghost key = name@;
                let mut taken = Shapes::new();
                std::mem::swap(self, &mut taken);
                let Shapes { mut names, mut shapes } = taken;
                names.push(name);
                shapes.push(shape);
                proof {
                    assert(keys_of(names@) =~= old(self).keys().push(key));
                    lemma_scene_pushed(old(self).keys(), old(self).shapes@, key, shape);
                }
                *self = Shapes { names, shapes };
                None
            },
        }
    }

    /// Takes the shape called `name` out of the scene and hands it back.
    pub fn remove(&mut self, name: &str) -> (removed: Option<Shape>)
        ensures
            final(self)@ == old(self)@.remove(name@),
            removed == (if old(self)@.contains_key(name@) {
                Some(old(self)@[name@])
            } else {
                None
            }),
    {
        proof {
            use_type_invariant(&*self);
            lemma_scene_of(self.keys(), self.shapes@);
        }
        match self.position(name) {
            Some(i) => {
                let mut taken = Shapes::new();
                std::mem::swap(self, &mut taken);
                let Shapes { mut names, mut shapes } = taken;
                names.remove(i);
                let removed = shapes.remove(i);
                proof {
                    assert(keys_of(names@) =~= old(self).keys().remove(i as int));
                    lemma_scene_removed(old(self).keys(), old(self).shapes@, i as int);
                }
                *self = Shapes { names, shapes };
                Some(removed)
            },
            None => {
                assert(self@ =~= old(self)@.remove(name@));
                None
            },
        }
    }

    /// Whether the scene has a shape called `name`.
    pub fn contains_key(&self, name: &str) -> (found: bool)
        ensures
            found == self@.contains_key(name@),
    {
        proof {
            use_type_invariant(self);
            lemma_scene_of(self.keys(), self.shapes@);
        }
        self.position(name).is_some()
    }

    /// Every entry of the scene, once each, in the order of [`Shapes::keys`].
    pub fn entries(&self) -> (all: Vec<(String, Shape)>)
        ensures
            self.keys().no_duplicates(),
            self.keys().to_set() == self@.dom(),
            all@.len() == self.keys().len(),
            forall|i: int|
                0 <= i < all@.len() ==> (#[trigger] all@[i]).0@ == self.keys()[i]
                    && self@.contains_key(self.keys()[i]) && all@[i].1 == self@[self.keys()[i]],
    {
        proof {
            use_type_invariant(self);
            lemma_scene_of(self.keys(), self.shapes@);
        }
        let mut all: Vec<(String, Shape)> = Vec::new();
        let mut i: usize = 0;
        while i < self.names.len()
            invariant
                i <= self.names@.len(),
                self.names@.len() == self.shapes@.len(),
                all@.len() == i,
                forall|j: int|
                    0 <= j < i ==> (#[trigger] all@[j]).0@ == self.keys()[j] && all@[j].1
                        == self.shapes@[j],
            decreases self.names@.len() - i,
        {
            all.push((self.names[i].clone(), self.shapes[i]));
            i += 1;
        }
        proof {
            assert forall|i: int| 0 <= i < all@.len() implies self@.contains_key(
                self.keys()[i],
            ) && all@[i].1 == self@[self.keys()[i]] by {
                assert(self.keys().contains(self.keys()[i]));
            }
        }
        all
    }
}

impl Default for Shapes {
    fn default() -> (scene: Shapes)
        ensures
            scene@ == Scene::empty(),
    {
        Shapes::new()
    }
}

} // verus!
