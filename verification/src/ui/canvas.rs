//! What is drawn: a list of shapes and texts, in the order in which they cover each other.
use vstd::prelude::*;
use vstd::string::*;

verus! {

/// The width of the screen in pixels.
pub const WIDTH: usize = 480;

/// The height of the screen in pixels.
pub const HEIGHT: usize = 720;

/// The fonts on the screen.
#[derive(Clone, Copy, Debug, PartialEq, Eq, Structural)]
pub enum Font {
    /// 9 by 15 pixels for each character.
    Plain,
    /// The same, bold.
    Bold,
    /// 10 by 20 pixels for each character.
    Large,
}

/// A shape or a text. The point is the upper left corner.
#[derive(Debug)]
pub enum Shape {
    Rect { x: i32, y: i32, w: u32, h: u32, color: u16 },
    Disc { x: i32, y: i32, d: u32, color: u16 },
    Ring { x: i32, y: i32, d: u32, stroke: u32, color: u16 },
    Oval { x: i32, y: i32, w: u32, h: u32, color: u16 },
    Dot { x: i32, y: i32, color: u16 },
    Label { text: String, x: i32, y: i32, font: Font, color: u16 },
}

pub enum ShapeView {
    Rect { x: i32, y: i32, w: u32, h: u32, color: u16 },
    Disc { x: i32, y: i32, d: u32, color: u16 },
    Ring { x: i32, y: i32, d: u32, stroke: u32, color: u16 },
    Oval { x: i32, y: i32, w: u32, h: u32, color: u16 },
    Dot { x: i32, y: i32, color: u16 },
    Label { text: Seq<char>, x: i32, y: i32, font: Font, color: u16 },
}

impl View for Shape {
    type V = ShapeView;

    open spec fn view(&self) -> ShapeView {
        match self {
            Shape::Rect { x, y, w, h, color } => ShapeView::Rect {
                x: *x,
                y: *y,
                w: *w,
                h: *h,
                color: *color,
            },
            Shape::Disc { x, y, d, color } => ShapeView::Disc { x: *x, y: *y, d: *d, color: *color },
            Shape::Ring { x, y, d, stroke, color } => ShapeView::Ring {
                x: *x,
                y: *y,
                d: *d,
                stroke: *stroke,
                color: *color,
            },
            Shape::Oval { x, y, w, h, color } => ShapeView::Oval {
                x: *x,
                y: *y,
                w: *w,
                h: *h,
                color: *color,
            },
            Shape::Dot { x, y, color } => ShapeView::Dot { x: *x, y: *y, color: *color },
            Shape::Label { text, x, y, font, color } => ShapeView::Label {
                text: text@,
                x: *x,
                y: *y,
                font: *font,
                color: *color,
            },
        }
    }
}

pub open spec fn rect(x: int, y: int, w: int, h: int, color: u16) -> ShapeView {
    ShapeView::Rect { x: x as i32, y: y as i32, w: w as u32, h: h as u32, color }
}

pub open spec fn disc(x: int, y: int, d: int, color: u16) -> ShapeView {
    ShapeView::Disc { x: x as i32, y: y as i32, d: d as u32, color }
}

pub open spec fn ring(x: int, y: int, d: int, stroke: int, color: u16) -> ShapeView {
    ShapeView::Ring { x: x as i32, y: y as i32, d: d as u32, stroke: stroke as u32, color }
}

pub open spec fn oval(x: int, y: int, w: int, h: int, color: u16) -> ShapeView {
    ShapeView::Oval { x: x as i32, y: y as i32, w: w as u32, h: h as u32, color }
}

pub open spec fn dot(x: int, y: int, color: u16) -> ShapeView {
    ShapeView::Dot { x: x as i32, y: y as i32, color }
}

pub open spec fn label(text: Seq<char>, x: int, y: int, font: Font, color: u16) -> ShapeView {
    ShapeView::Label { text, x: x as i32, y: y as i32, font, color }
}

/// What is drawn, the lowest first.
pub struct Canvas {
    pub shapes: Vec<Shape>,
}

impl View for Canvas {
    type V = Seq<ShapeView>;

    open spec fn view(&self) -> Seq<ShapeView> {
        crate::text::views(self.shapes@)
    }
}

impl Canvas {
    pub fn new() -> (r: Canvas)
        ensures
            r@ == Seq::<ShapeView>::empty(),
    {
        let r = Canvas { shapes: Vec::new() };
        assert(r@ =~= Seq::<ShapeView>::empty());
        r
    }

    fn put(&mut self, shape: Shape)
        ensures
            final(self)@ == old(self)@.push(shape@),
    {
        self.shapes.push(shape);
        assert(self@ =~= old(self)@.push(shape@));
    }

    pub fn rect(&mut self, x: i32, y: i32, w: u32, h: u32, color: u16)
        ensures
            final(self)@ == old(self)@.push(rect(x as int, y as int, w as int, h as int, color)),
    {
        self.put(Shape::Rect { x, y, w, h, color });
    }

    pub fn disc(&mut self, x: i32, y: i32, d: u32, color: u16)
        ensures
            final(self)@ == old(self)@.push(disc(x as int, y as int, d as int, color)),
    {
        self.put(Shape::Disc { x, y, d, color });
    }

    pub fn ring(&mut self, x: i32, y: i32, d: u32, stroke: u32, color: u16)
        ensures
            final(self)@ == old(self)@.push(
                ring(x as int, y as int, d as int, stroke as int, color),
            ),
    {
        self.put(Shape::Ring { x, y, d, stroke, color });
    }

    pub fn oval(&mut self, x: i32, y: i32, w: u32, h: u32, color: u16)
        ensures
            final(self)@ == old(self)@.push(oval(x as int, y as int, w as int, h as int, color)),
    {
        self.put(Shape::Oval { x, y, w, h, color });
    }

    pub fn dot(&mut self, x: i32, y: i32, color: u16)
        ensures
            final(self)@ == old(self)@.push(dot(x as int, y as int, color)),
    {
        self.put(Shape::Dot { x, y, color });
    }

    pub fn label(&mut self, text: &str, x: i32, y: i32, font: Font, color: u16)
        ensures
            final(self)@ == old(self)@.push(label(text@, x as int, y as int, font, color)),
    {
        self.put(Shape::Label { text: text.to_owned(), x, y, font, color });
    }
}

/// What is drawn for each number below `n`, in order.
pub open spec fn each(n: nat, f: spec_fn(int) -> Seq<ShapeView>) -> Seq<ShapeView>
    decreases n,
{
    if n == 0 {
        seq![]
    } else {
        each((n - 1) as nat, f) + f(n - 1)
    }
}

/// A number of 32 bits that has run over.
pub open spec fn wrapped(n: int) -> int {
    n % 0x1_0000_0000
}

} // verus!
