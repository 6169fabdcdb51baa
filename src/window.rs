use vstd::prelude::*;

verus! {

/// The mathematical model of a pane: origin and size.
pub struct PaneArea {
    pub x: int,
    pub y: int,
    pub width: int,
    pub height: int,
}

/// A rectangular region of the terminal; drawing in it goes through
/// `move_to`, which turns pane coordinates into terminal coordinates.
pub struct Window {
    x: u16,
    y: u16,
    width: u16,
    height: u16,
}

impl View for Window {
    type V = PaneArea;

    closed spec fn view(&self) -> PaneArea {
        PaneArea {
            x: self.x as int,
            y: self.y as int,
            width: self.width as int,
            height: self.height as int,
        }
    }
}

impl Window {
    pub fn new(x: u16, y: u16, width: u16, height: u16) -> (r: Window)
        ensures
            r@ == (PaneArea { x: x as int, y: y as int, width: width as int, height: height as int }),
    {
        Window { x, y, width, height }
    }

    pub fn set_width(&mut self, width: u16)
        ensures
            final(self)@ == (PaneArea { width: width as int, ..old(self)@ }),
    {
        self.width = width;
    }

    pub fn set_height(&mut self, height: u16)
        ensures
            final(self)@ == (PaneArea { height: height as int, ..old(self)@ }),
    {
        self.height = height;
    }

    pub fn set_location(&mut self, x: u16, y: u16)
        ensures
            final(self)@ == (PaneArea { x: x as int, y: y as int, ..old(self)@ }),
    {
        self.x = x;
        self.y = y;
    }

    pub fn width(&self) -> (r: u16)
        ensures
            r == self@.width,
    {
        self.width
    }

    pub fn height(&self) -> (r: u16)
        ensures
            r == self@.height,
    {
        self.height
    }

    /// The terminal position of the pane position (`x`, `y`).
    pub fn move_to(&self, x: u16, y: u16) -> (r: (u16, u16))
        requires
            self@.x + x <= u16::MAX,
            self@.y + y <= u16::MAX,
        ensures
            r.0 == self@.x + x,
            r.1 == self@.y + y,
    {
        (self.x + x, self.y + y)
    }
}

} // verus!
