//! The canvas grid and the viewport that is laid over it.

use vstd::prelude::*;
use vstd::arithmetic::div_mod::{
    lemma_fundamental_div_mod,
    lemma_fundamental_div_mod_converse_div,
    lemma_fundamental_div_mod_converse_mod,
    lemma_mod_bound,
};

verus! {

/// A canvas of `width` by `height` pixels and the viewport that is shown on it.
///
/// The viewport says which part of the plane is visible. The grid does not read it: it is
/// carried for the caller, who maps pixels to points of the plane.
#[derive(Debug, PartialEq)]
pub struct Domain<V> {
    pub viewport: V,
    pub width: usize,
    pub height: usize,
}

impl<V: Copy> Clone for Domain<V> {
    fn clone(&self) -> (copy: Self)
        ensures
            copy == *self,
    {
        *self
    }
}

impl<V: Copy> Copy for Domain<V> {

}

/// The proportions of a canvas: its longer and its shorter side, and whether the longer one
/// is the width.
#[derive(Clone, Copy, Debug, PartialEq, Eq, Structural)]
pub struct Aspect {
    /// The width is strictly greater than the height.
    pub wide: bool,
    pub long: usize,
    pub short: usize,
}

/// The column of the pixel with the given row-major index on a canvas of the given width.
pub open spec fn column_of(index: int, width: int) -> int {
    index % width
}

/// The row of the pixel with the given row-major index on a canvas of the given width.
pub open spec fn row_of(index: int, width: int) -> int {
    index / width
}

/// The row-major index of a pixel and its coordinates determine each other: the pixel
/// with index `i` lies at `(x, y)` exactly if `x` is a column of the canvas and
/// `i == y * width + x`.
pub proof fn lemma_pixel_index(i: int, x: int, y: int, width: int)
    requires
        0 <= i,
        0 < width,
    ensures
        (x == column_of(i, width) && y == row_of(i, width)) <==> (0 <= x < width && i == y * width
            + x),
{
    if 0 <= x < width && i == y * width + x {
        lemma_fundamental_div_mod_converse_div(i, width, y, x);
        lemma_fundamental_div_mod_converse_mod(i, width, y, x);
    }
    if x == column_of(i, width) && y == row_of(i, width) {
        lemma_fundamental_div_mod(i, width);
        lemma_mod_bound(i, width);
        assert(width * y == y * width) by (nonlinear_arith);
    }
}

/// A walk over the pixels of a canvas, row by row from the top, each row from the left.
#[derive(Debug)]
pub struct DomainIterator {
    x: usize,
    y: usize,
    width: usize,
    height: usize,
}

impl DomainIterator {
    #[verifier::type_invariant]
    spec fn wf(self) -> bool {
        &&& self.y <= self.height
        &&& self.x < self.width || self.x == 0
        &&& self.y == self.height ==> self.x == 0
    }

    /// The number of pixels handed out so far.
    pub closed spec fn index(self) -> nat {
        (self.y * self.width + self.x) as nat
    }

    /// The width of the canvas that is walked.
    pub closed spec fn width(self) -> nat {
        self.width as nat
    }

    /// The height of the canvas that is walked.
    pub closed spec fn height(self) -> nat {
        self.height as nat
    }

    /// The coordinates `(x, y)` of the next pixel, or `None` after the last one. The pixel
    /// with index `i` lies in column `i % width` of row `i / width`.
    pub fn next(&mut self) -> (r: Option<(usize, usize)>)
        ensures
            final(self).width() == old(self).width(),
            final(self).height() == old(self).height(),
            match r {
                Some((x, y)) => {
                    &&& old(self).index() < old(self).width() * old(self).height()
                    &&& x == column_of(old(self).index() as int, old(self).width() as int)
                    &&& y == row_of(old(self).index() as int, old(self).width() as int)
                    &&& x < old(self).width()
                    &&& y < old(self).height()
                    &&& final(self).index() == old(self).index() + 1
                },
                None => {
                    &&& old(self).index() >= old(self).width() * old(self).height()
                    &&& final(self).index() == old(self).index()
                },
            },
    {
        proof {
            use_type_invariant(&*self);
        }
        let x = self.x;
        let y = self.y;
        let width = self.width;
        let height = self.height;
        if y >= height || width == 0 {
            assert(y * width + x >= width * height) by (nonlinear_arith)
                requires
                    y >= height || width == 0,
                    x >= 0,
            ;
            return None;
        }
        proof {
            lemma_fundamental_div_mod_converse_div(y * width + x, width as int, y as int, x as int);
            lemma_fundamental_div_mod_converse_mod(y * width + x, width as int, y as int, x as int);
            assert(y * width + x < width * height) by (nonlinear_arith)
                requires
                    y < height,
                    x < width,
            ;
        }
        if x + 1 < width {
            self.x = x + 1;
        } else {
            self.x = 0;
            self.y = y + 1;
            assert((y + 1) * width + 0 == y * width + x + 1) by (nonlinear_arith)
                requires
                    x + 1 == width,
            ;
        }
        Some((x, y))
    }
}

impl<V> Domain<V> {
    /// A canvas of the given size with the given viewport.
    pub fn new(width: usize, height: usize, viewport: V) -> (domain: Domain<V>)
        ensures
            domain == (Domain { viewport, width, height }),
    {
        Domain { viewport, width, height }
    }

    /// Changes the size of the canvas. The viewport stays as it is.
    pub fn resize(&mut self, width: usize, height: usize)
        ensures
            *final(self) == (Domain { viewport: old(self).viewport, width, height }),
    {
        self.width = width;
        self.height = height;
    }

    /// Replaces the viewport. The size of the canvas stays as it is.
    pub fn change(&mut self, viewport: V)
        ensures
            *final(self) == (Domain {
                viewport,
                width: old(self).width,
                height: old(self).height,
            }),
    {
        self.viewport = viewport;
    }

    /// A walk over the pixels of the canvas, from the first.
    pub fn iter(&self) -> (pixels: DomainIterator)
        ensures
            pixels.index() == 0,
            pixels.width() == self.width,
            pixels.height() == self.height,
    {
        DomainIterator { x: 0, y: 0, width: self.width, height: self.height }
    }

    /// The proportions of the canvas. A caller stretches the longer axis of the viewport by
    /// `long / short`, so that a circle of the plane is a circle on the canvas.
    pub fn aspect(&self) -> (aspect: Aspect)
        ensures
            aspect.wide == (self.width > self.height),
            aspect.long == (if self.width > self.height {
                self.width
            } else {
                self.height
            }),
            aspect.short == (if self.width > self.height {
                self.height
            } else {
                self.width
            }),
    {
        if self.width > self.height {
            Aspect { wide: true, long: self.width, short: self.height }
        } else {
            Aspect { wide: false, long: self.height, short: self.width }
        }
    }
}

} // verus!
