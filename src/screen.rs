//! Components that know how to draw themselves, and a screen that draws its
//! components in order. Drawing here means listing the shapes to put on the
//! display; showing them is left to the caller.
use vstd::prelude::*;

verus! {

/// One thing to put on the display.
#[derive(Clone, Debug, PartialEq, Eq)]
pub enum Shape {
    /// The outline of a rectangle of the given size.
    Rect { width: u32, height: u32 },
    /// A line of text.
    Text { text: String },
}

/// Something that can be drawn.
pub trait Draw {
    /// The shapes that drawing this component adds, in order.
    spec fn drawing(&self) -> Seq<Shape>;

    /// Adds this component's shapes to the end of `canvas`.
    fn draw(&self, canvas: &mut Vec<Shape>)
        ensures
            final(canvas)@ == old(canvas)@ + self.drawing(),
    ;
}

/// The shapes of `components`, drawn one after the other.
pub open spec fn drawing_of(components: Seq<Box<dyn Draw>>) -> Seq<Shape>
    decreases components.len(),
{
    if components.len() == 0 {
        Seq::empty()
    } else {
        drawing_of(components.drop_last()) + components.last().drawing()
    }
}

/// A screen: a list of components drawn in order.
pub struct Screen {
    pub components: Vec<Box<dyn Draw>>,
}

impl Screen {
    /// Draws every component, first to last, and returns what was drawn.
    pub fn run(&self) -> (frame: Vec<Shape>)
        ensures
            frame@ == drawing_of(self.components@),
    {
        let mut frame: Vec<Shape> = Vec::new();
        let mut i: usize = 0;
        while i < self.components.len()
            invariant
                i <= self.components@.len(),
                frame@ == drawing_of(self.components@.take(i as int)),
            decreases self.components@.len() - i,
        {
            self.components[i].draw(&mut frame);
            assert(self.components@.take(i + 1).drop_last() =~= self.components@.take(i as int));
            i = i + 1;
        }
        assert(self.components@.take(i as int) =~= self.components@);
        frame
    }
}

/// A push button: a frame of the given size with a label in it.
pub struct Button {
    pub width: u32,
    pub height: u32,
    pub label: String,
}

impl Draw for Button {
    /// A button draws its frame, then its label.
    open spec fn drawing(&self) -> Seq<Shape> {
        seq![Shape::Rect { width: self.width, height: self.height }, Shape::Text { text: self.label }]
    }

    fn draw(&self, canvas: &mut Vec<Shape>) {
        canvas.push(Shape::Rect { width: self.width, height: self.height });
        canvas.push(Shape::Text { text: self.label.clone() });
        assert(canvas@ =~= old(canvas)@ + self.drawing());
    }
}

} // verus!
