//! Floating-point quantities, carried as decimal text.
//!
//! Nothing in this library computes with binary floating point. A temperature,
//! a latitude or a wind speed is held as the decimal text that denotes it.
//!
//! The text stays as it is while it is held, and goes into the address of a
//! query as it is. Where a document is written as JSON text, the decimal is
//! read as a floating-point number and printed anew: `0` goes out as `0.0`,
//! and a text that denotes no finite number, such as `north`, goes out as
//! `null`. A decimal that was read from JSON text always denotes one; one made
//! with [`Decimal::new`] holds whatever text it was made of.

use vstd::prelude::*;

verus! {

/// The text that stands for zero.
pub open spec fn zero_text() -> Seq<char> {
    seq!['0']
}

/// A floating-point quantity, held as the decimal text that denotes it.
#[derive(Debug, PartialEq, Eq)]
pub struct Decimal {
    pub text: String,
}

impl View for Decimal {
    type V = Seq<char>;

    open spec fn view(&self) -> Seq<char> {
        self.text@
    }
}

impl Clone for Decimal {
    fn clone(&self) -> (r: Self)
        ensures
            r@ == self@,
    {
        Decimal { text: self.text.clone() }
    }
}

impl Default for Decimal {
    fn default() -> (r: Self)
        ensures
            r@ == zero_text(),
    {
        Decimal::zero()
    }
}

impl Decimal {
    /// The decimal that holds `text`. Nothing is asked of the text: whether it
    /// denotes a number shows only where it is written as JSON.
    pub fn new(text: &str) -> (r: Decimal)
        ensures
            r@ == text@,
    {
        Decimal { text: String::from_str(text) }
    }

    /// Zero.
    pub fn zero() -> (r: Decimal)
        ensures
            r@ == zero_text(),
    {
        proof {
            reveal_strlit("0");
        }
        let r = Decimal { text: String::from_str("0") };
        assert(r@ =~= zero_text());
        r
    }

    /// The decimal text of this quantity.
    pub fn as_str(&self) -> (r: &str)
        ensures
            r@ == self@,
    {
        self.text.as_str()
    }
}

} // verus!
