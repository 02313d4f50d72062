//! A window's bounding rectangle in screen pixels.

use crate::decimal::{int_digits, push_decimal};
use vstd::prelude::*;
use vstd::string::StringExecFns;

verus! {

/// The bounding box of a window: the coordinates of its left, top, right and
/// bottom edges. The coordinates are taken as the operating system gave them;
/// `right >= left` and `bottom >= top` are expected but not required.
#[derive(Clone, Copy, Debug, PartialEq, Eq, Structural)]
pub struct PrettyPrintRect {
    pub left: i32,
    pub top: i32,
    pub right: i32,
    pub bottom: i32,
}

impl PrettyPrintRect {
    /// The horizontal extent, `right - left`, as a mathematical integer.
    pub open spec fn spec_width(self) -> int {
        self.right - self.left
    }

    /// The vertical extent, `bottom - top`, as a mathematical integer.
    pub open spec fn spec_height(self) -> int {
        self.bottom - self.top
    }

    /// The text of the rectangle: `(left, top), (right, bottom) - WxH`, each
    /// number in decimal, `W` the width and `H` the height.
    pub open spec fn rendered(self) -> Seq<char> {
        "("@ + int_digits(self.left as int) + ", "@ + int_digits(self.top as int) + "), ("@
            + int_digits(self.right as int) + ", "@ + int_digits(self.bottom as int) + ") - "@
            + int_digits(self.spec_width()) + "x"@ + int_digits(self.spec_height())
    }

    /// Builds a rectangle from its four edges.
    pub fn new(left: i32, top: i32, right: i32, bottom: i32) -> (rect: PrettyPrintRect)
        ensures
            rect == (PrettyPrintRect { left, top, right, bottom }),
    {
        PrettyPrintRect { left, top, right, bottom }
    }

    /// The rectangle with every edge at zero, as a query buffer starts out.
    pub fn zeroed() -> (rect: PrettyPrintRect)
        ensures
            rect == (PrettyPrintRect { left: 0, top: 0, right: 0, bottom: 0 }),
    {
        PrettyPrintRect { left: 0, top: 0, right: 0, bottom: 0 }
    }

    /// `right - left`. The difference of two `i32` always fits in an `i64`,
    /// so no rectangle makes this overflow.
    pub fn width(self) -> (w: i64)
        ensures
            w == self.spec_width(),
    {
        self.right as i64 - self.left as i64
    }

    /// `bottom - top`, computed like [`PrettyPrintRect::width`].
    pub fn height(self) -> (h: i64)
        ensures
            h == self.spec_height(),
    {
        self.bottom as i64 - self.top as i64
    }

    /// Renders the rectangle as `(left, top), (right, bottom) - WxH`.
    pub fn render(&self) -> (text: String)
        ensures
            text@ == self.rendered(),
    {
        let mut text = String::new();
        text.append("(");
        push_decimal(&mut text, self.left as i64);
        text.append(", ");
        push_decimal(&mut text, self.top as i64);
        text.append("), (");
        push_decimal(&mut text, self.right as i64);
        text.append(", ");
        push_decimal(&mut text, self.bottom as i64);
        text.append(") - ");
        push_decimal(&mut text, self.width());
        text.append("x");
        push_decimal(&mut text, self.height());
        assert(text@ =~= self.rendered());
        text
    }
}

} // verus!
