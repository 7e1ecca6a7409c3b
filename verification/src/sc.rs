//! Models of the screen-capture surface: the shareable content a filter
//! selects, and the stream machinery in [`stream`].

pub mod stream;

use vstd::prelude::*;

use crate::cg::Rect;

verus! {

/// What kind of content a filter captures.
#[derive(Clone, Copy, PartialEq, Eq, Structural, Debug)]
pub enum ShareableContentStyle {
    /// Nothing selected.
    Nothing,
    /// A single window.
    Window,
    /// A whole display.
    Display,
    /// An application's windows.
    Application,
}

/// A shareable window.
#[derive(Clone, Copy, PartialEq, Eq, Structural, Debug)]
pub struct Window {
    /// The window's identifier.
    pub id: u32,
    /// The window's frame on screen.
    pub frame: Rect,
}

impl Window {
    pub fn new(id: u32, frame: Rect) -> (r: Window)
        ensures
            r.id == id,
            r.frame == frame,
    {
        Window { id, frame }
    }

    pub fn id(&self) -> (r: u32)
        ensures
            r == self.id,
    {
        self.id
    }

    pub fn frame(&self) -> (r: Rect)
        ensures
            r == self.frame,
    {
        self.frame
    }
}

/// A shareable display.
#[derive(Clone, Copy, PartialEq, Eq, Structural, Debug)]
pub struct Display {
    /// The display's identifier.
    pub id: u32,
    /// The display's width in points.
    pub width: i64,
    /// The display's height in points.
    pub height: i64,
}

impl Display {
    pub fn new(id: u32, width: i64, height: i64) -> (r: Display)
        ensures
            r.id == id,
            r.width == width,
            r.height == height,
    {
        Display { id, width, height }
    }

    pub fn width(&self) -> (r: i64)
        ensures
            r == self.width,
    {
        self.width
    }

    pub fn height(&self) -> (r: i64)
        ensures
            r == self.height,
    {
        self.height
    }

    /// The display's bounds: its size at the origin.
    pub fn frame(&self) -> (r: Rect)
        ensures
            r.origin.x == 0,
            r.origin.y == 0,
            r.size.width == self.width,
            r.size.height == self.height,
    {
        Rect::new(0, 0, self.width, self.height)
    }
}

} // verus!
