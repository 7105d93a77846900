//! Drawable shapes: a capability set of drawing and area reporting,
//! implemented by circles and rectangles and dispatched through a trait.
//!
//! Dimensions are whole numbers so that every report is exact: a rectangle's
//! area is the product of its sides, and a circle reports its area as a
//! multiple of pi, which is exact for a whole-number radius.

use vstd::prelude::*;

use crate::decimal::{dec_rep, u64_to_decimal};

verus! {

/// The capability of a drawable shape: it can render itself and report its
/// area, each as one line of text.
pub trait Drawable {
    /// The text that drawing the shape produces.
    spec fn drawing(&self) -> Seq<char>;

    /// The text that reporting the shape's area produces.
    spec fn area_text(&self) -> Seq<char>;

    /// Render the shape.
    fn draw(&self) -> (r: String)
        ensures
            r@ == self.drawing(),
    ;

    /// Report the shape's area.
    fn area(&self) -> (r: String)
        ensures
            r@ == self.area_text(),
    ;
}

/// A circle with a whole-number radius.
#[derive(Debug, Clone, Copy, PartialEq, Eq)]
pub struct Circle {
    pub radius: u32,
}

impl Drawable for Circle {
    open spec fn drawing(&self) -> Seq<char> {
        "Drawing a circle with radius "@ + dec_rep(self.radius as nat)
    }

    open spec fn area_text(&self) -> Seq<char> {
        "The area of this circle:  "@ + dec_rep((self.radius * self.radius) as nat) + " pi"@
    }

    fn draw(&self) -> (r: String) {
        let mut s = "Drawing a circle with radius ".to_owned();
        let d = u64_to_decimal(self.radius as u64);
        s.append(d.as_str());
        proof {
            assert(s@ =~= self.drawing());
        }
        s
    }

    fn area(&self) -> (r: String) {
        let radius = self.radius as u64;
        proof {
            assert(radius * radius <= 0xffff_ffffu64 * 0xffff_ffffu64) by (nonlinear_arith)
                requires
                    radius <= 0xffff_ffffu64,
            ;
        }
        let sq = radius * radius;
        let mut s = "The area of this circle:  ".to_owned();
        let d = u64_to_decimal(sq);
        s.append(d.as_str());
        s.append(" pi");
        proof {
            assert(s@ =~= self.area_text());
        }
        s
    }
}

impl Circle {
    /// One line describing the shape and its fields.
    pub fn describe(&self) -> (r: String)
        ensures
            r@ == "Circle { radius: "@ + dec_rep(self.radius as nat) + " }"@,
    {
        let mut s = "Circle { radius: ".to_owned();
        let d = u64_to_decimal(self.radius as u64);
        s.append(d.as_str());
        s.append(" }");
        proof {
            assert(s@ =~= "Circle { radius: "@ + dec_rep(self.radius as nat) + " }"@);
        }
        s
    }
}

/// A rectangle with whole-number sides.
#[derive(Debug, Clone, Copy, PartialEq, Eq)]
pub struct Rectangle {
    pub width: u32,
    pub height: u32,
}

impl Drawable for Rectangle {
    open spec fn drawing(&self) -> Seq<char> {
        "Drawing a rectangle with width "@ + dec_rep(self.width as nat) + " and height "@
            + dec_rep(self.height as nat)
    }

    open spec fn area_text(&self) -> Seq<char> {
        "The area of this rectangle:  "@ + dec_rep((self.width * self.height) as nat)
    }

    fn draw(&self) -> (r: String) {
        let mut s = "Drawing a rectangle with width ".to_owned();
        let w = u64_to_decimal(self.width as u64);
        s.append(w.as_str());
        s.append(" and height ");
        let h = u64_to_decimal(self.height as u64);
        s.append(h.as_str());
        proof {
            assert(s@ =~= self.drawing());
        }
        s
    }

    fn area(&self) -> (r: String) {
        let width = self.width as u64;
        let height = self.height as u64;
        proof {
            assert(width * height <= 0xffff_ffffu64 * 0xffff_ffffu64) by (nonlinear_arith)
                requires
                    width <= 0xffff_ffffu64,
                    height <= 0xffff_ffffu64,
            ;
        }
        let product = width * height;
        let mut s = "The area of this rectangle:  ".to_owned();
        let d = u64_to_decimal(product);
        s.append(d.as_str());
        proof {
            assert(s@ =~= self.area_text());
        }
        s
    }
}

impl Rectangle {
    /// One line describing the shape and its fields.
    pub fn describe(&self) -> (r: String)
        ensures
            r@ == "Rectangle { width: "@ + dec_rep(self.width as nat) + ", height: "@
                + dec_rep(self.height as nat) + " }"@,
    {
        let mut s = "Rectangle { width: ".to_owned();
        let w = u64_to_decimal(self.width as u64);
        s.append(w.as_str());
        s.append(", height: ");
        let h = u64_to_decimal(self.height as u64);
        s.append(h.as_str());
        s.append(" }");
        proof {
            assert(s@ =~= "Rectangle { width: "@ + dec_rep(self.width as nat) + ", height: "@
                + dec_rep(self.height as nat) + " }"@);
        }
        s
    }
}

/// Render any drawable shape, dispatching through the capability.
pub fn draw_shape<T: Drawable>(shape: &T) -> (r: String)
    ensures
        r@ == shape.drawing(),
{
    shape.draw()
}

/// Report the area of any drawable shape, dispatching through the
/// capability.
pub fn print_area<T: Drawable>(shape: &T) -> (r: String)
    ensures
        r@ == shape.area_text(),
{
    shape.area()
}

} // verus!
