//! Utilities for rendering values, and for determining the displayed length of
//! text.

use vstd::prelude::*;

use crate::util::text;

verus! {

// TYPE DEFINITIONS ************************************************************

/// Trait for types that can be rendered for display to the user.
pub trait Describe {
    /// The text that represents this value.
    spec fn described(&self) -> Seq<char>;

    /// Renders this value.
    fn describe(&self) -> (r: String)
        ensures
            r@ == self.described(),
    ;
}

/// Trait for types that can compute their display length when printed to the
/// console.
pub trait DisplayLength {
    /// The display length of this value.
    spec fn displayed(&self) -> nat;

    /// Computes the display length of this value.
    fn display_length(&self) -> (r: usize)
        ensures
            r == self.displayed(),
    ;
}

// MODELS **********************************************************************

/// The display length of text, which is the number of its characters.
pub open spec fn text_length(s: Seq<char>) -> nat {
    s.len()
}

/// The greatest of the display lengths of the given items, or zero if there are
/// none.
pub open spec fn max_displayed<T: DisplayLength>(items: Seq<T>) -> nat
    decreases items.len(),
{
    if items.len() == 0 {
        0
    } else {
        max_nat(max_displayed(items.drop_last()), items.last().displayed())
    }
}

/// The greater of two numbers.
pub open spec fn max_nat(a: nat, b: nat) -> nat {
    if a >= b {
        a
    } else {
        b
    }
}

// TRAIT IMPLS *****************************************************************

impl DisplayLength for str {
    open spec fn displayed(&self) -> nat {
        text_length(self@)
    }

    fn display_length(&self) -> (r: usize) {
        self.unicode_len()
    }
}

impl DisplayLength for String {
    open spec fn displayed(&self) -> nat {
        text_length(self@)
    }

    fn display_length(&self) -> (r: usize) {
        self.as_str().unicode_len()
    }
}

impl DisplayLength for u64 {
    /// The number of decimal digits.
    open spec fn displayed(&self) -> nat {
        text::decimal(*self as nat).len()
    }

    fn display_length(&self) -> (r: usize) {
        text::decimal_string(*self).as_str().unicode_len()
    }
}

// FUNCTIONS *******************************************************************

/// Returns the greater of two lengths.
pub fn max_length(a: usize, b: usize) -> (r: usize)
    ensures
        r == max_nat(a as nat, b as nat),
{
    if a >= b {
        a
    } else {
        b
    }
}

/// Computes the maximum display length for a sequence of items implementing
/// [`DisplayLength`].
pub fn max_display_length<T: DisplayLength>(items: &Vec<T>) -> (r: usize)
    ensures
        r == max_displayed(items@),
{
    let mut cur_max: usize = 0;
    let mut i: usize = 0;
    while i < items.len()
        invariant
            i <= items.len(),
            cur_max == max_displayed(items@.take(i as int)),
        decreases items.len() - i,
    {
        assert(items@.take(i + 1).drop_last() =~= items@.take(i as int));
        cur_max = max_length(cur_max, items[i].display_length());
        i = i + 1;
    }
    assert(items@.take(i as int) =~= items@);
    cur_max
}

/// No item in a sequence is longer than the maximum display length, and some
/// item is as long as that unless there are none.
pub proof fn law_max_display_length<T: DisplayLength>(items: Seq<T>)
    ensures
        forall|i: int|
            0 <= i < items.len() ==> (#[trigger] items[i]).displayed() <= max_displayed(items),
        items.len() == 0 ==> max_displayed(items) == 0,
        items.len() > 0 ==> exists|i: int|
            0 <= i < items.len() && (#[trigger] items[i]).displayed() == max_displayed(items),
    decreases items.len(),
{
    if items.len() > 0 {
        let before = items.drop_last();
        law_max_display_length(before);
        assert forall|i: int| 0 <= i < items.len() implies (#[trigger] items[i]).displayed()
            <= max_displayed(items) by {
            if i < before.len() {
                assert(before[i].displayed() <= max_displayed(before));
            }
        }
        if before.len() == 0 || items.last().displayed() > max_displayed(before) {
            assert(items[items.len() - 1].displayed() == max_displayed(items));
        } else {
            let i = choose|i: int|
                0 <= i < before.len() && (#[trigger] before[i]).displayed() == max_displayed(before);
            assert(items[i].displayed() == max_displayed(items));
        }
    }
}

} // verus!
