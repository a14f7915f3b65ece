//! Polynomials with whole-number coefficients, and their formal derivative.
//!
//! A polynomial is a list of terms `coefficient * z^exponent`. Exponents may be negative, so
//! that a formula such as `z^3 - 1 + 1/z` can be written down. The library never evaluates a
//! polynomial; it hands the terms to the caller, who evaluates them in the arithmetic of
//! their choice.

use vstd::prelude::*;

verus! {

/// One term `coefficient * z^exponent`.
#[derive(Clone, Copy, Debug, PartialEq, Eq, Structural)]
pub struct Term {
    pub coefficient: i64,
    pub exponent: i32,
}

/// A sum of terms.
#[derive(Debug)]
pub struct Polynomial {
    pub terms: Vec<Term>,
}

impl View for Polynomial {
    type V = Seq<Term>;

    open spec fn view(&self) -> Seq<Term> {
        self.terms@
    }
}

impl Term {
    /// The coefficient and the exponent as unbounded numbers.
    pub open spec fn pair(self) -> (int, int) {
        (self.coefficient as int, self.exponent as int)
    }
}

/// The derivative of one term as a pair of unbounded numbers: `(c * e, e - 1)` for
/// `c * z^e`, and the zero constant for a constant term.
pub open spec fn term_derivative(t: Term) -> (int, int) {
    if t.exponent == 0 {
        (0, 0)
    } else {
        (t.coefficient * t.exponent, t.exponent - 1)
    }
}

/// The derivative of `t` can be written as a `Term`.
pub open spec fn term_derivable(t: Term) -> bool {
    &&& i64::MIN <= term_derivative(t).0 <= i64::MAX
    &&& i32::MIN <= term_derivative(t).1
}

/// Every term of `p` has a derivative that can be written as a `Term`.
pub open spec fn derivable(p: Seq<Term>) -> bool {
    forall|k: int| 0 <= k < p.len() ==> term_derivable(#[trigger] p[k])
}

/// `d` is the term-by-term derivative of `p`.
pub open spec fn is_derivative(d: Seq<Term>, p: Seq<Term>) -> bool {
    &&& d.len() == p.len()
    &&& forall|k: int|
        0 <= k < p.len() ==> (#[trigger] d[k]).pair() == term_derivative(p[k])
}

impl Term {
    /// The derivative of this term, or `None` where its coefficient or exponent would
    /// leave the range of the field.
    pub fn derivative(&self) -> (r: Option<Term>)
        ensures
            r is Some <==> term_derivable(*self),
            r matches Some(d) ==> d.pair() == term_derivative(*self),
    {
        if self.exponent == 0 {
            return Some(Term { coefficient: 0, exponent: 0 });
        }
        let exponent: i32 = match self.exponent.checked_sub(1) {
            Some(e) => e,
            None => {
                return None;
            },
        };
        match self.coefficient.checked_mul(self.exponent as i64) {
            Some(coefficient) => Some(Term { coefficient, exponent }),
            None => None,
        }
    }
}

impl Polynomial {
    /// The formal derivative, term by term and in the same order, or `None` where a term's
    /// derivative cannot be written down.
    pub fn derivative(&self) -> (r: Option<Polynomial>)
        ensures
            r is Some <==> derivable(self@),
            r matches Some(d) ==> is_derivative(d@, self@),
    {
        let mut terms: Vec<Term> = Vec::new();
        let mut k: usize = 0;
        while k < self.terms.len()
            invariant
                k <= self.terms.len(),
                terms.len() == k,
                forall|j: int| 0 <= j < k ==> term_derivable(#[trigger] self.terms@[j]),
                forall|j: int|
                    0 <= j < k ==> (#[trigger] terms@[j]).pair() == term_derivative(self.terms@[j]),
            decreases self.terms.len() - k,
        {
            match self.terms[k].derivative() {
                Some(d) => {
                    terms.push(d);
                },
                None => {
                    return None;
                },
            }
            k += 1;
        }
        Some(Polynomial { terms })
    }
}

} // verus!
