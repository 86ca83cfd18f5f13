//! Laws that hold of the operations on text, and of how they relate to each other.

use vstd::prelude::*;

use super::text;

verus! {

// NUMBERS *********************************************************************

/// The representation of a number consists of digits, and has that value.
proof fn lemma_decimal_value(n: nat)
    ensures
        text::all_digits(text::decimal(n)),
        text::digits_value(text::decimal(n)) == n,
    decreases n,
{
    let s = text::decimal(n);
    if n < 10 {
        assert(s.drop_last() =~= Seq::empty());
        assert(text::digits_value(s.drop_last()) == 0);
        assert(s.last() as int == 48 + n);
        assert(text::is_digit(s[0]));
    } else {
        lemma_decimal_value(n / 10);
        let rest = text::decimal(n / 10);
        assert(s.drop_last() =~= rest);
        assert(s.last() as int == 48 + n % 10);
        assert forall|i: int| 0 <= i < s.len() implies text::is_digit(#[trigger] s[i]) by {
            if i < rest.len() {
                assert(s[i] == rest[i]);
            }
        }
    }
}

/// A number that has been rendered is read back as the same number, with or without
/// a plus sign, unless it exceeds the maximum.
pub proof fn law_numbers_are_read_back(
    n: u64,
    rendered: String,
    signed: bool,
    s: &str,
    max: u64,
    r: Option<u64>,
)
    requires
        call_ensures(text::decimal_string, (n,), rendered),
        s@ == (if signed {
            seq!['+'] + rendered@
        } else {
            rendered@
        }),
        call_ensures(text::parse_unsigned, (s, max), r),
    ensures
        r == (if n <= max {
            Some(n)
        } else {
            None
        }),
{
    lemma_decimal_is_parsed(n as nat, signed, s@, max as nat);
}

/// The representation of a number is parsed as that number.
pub proof fn lemma_decimal_is_parsed(n: nat, signed: bool, s: Seq<char>, max: nat)
    requires
        s == (if signed {
            seq!['+'] + text::decimal(n)
        } else {
            text::decimal(n)
        }),
    ensures
        text::parsed_unsigned(s, max) == (if n <= max {
            Some(n)
        } else {
            None
        }),
{
    let digits = text::decimal(n);
    lemma_decimal_value(n);
    assert(text::is_digit(digits[0]));
    assert((seq!['+'] + digits).skip(1) =~= digits);
    assert(text::unsigned_digits(s) =~= digits);
}

/// Nothing but digits is read as a number, apart from a plus sign at the start.
pub proof fn law_only_numbers_are_read(s: &str, i: int, max: u64, r: Option<u64>)
    requires
        call_ensures(text::parse_unsigned, (s, max), r),
        ({
            ||| s@.len() == 0
            ||| s@ == seq!['+']
            ||| 0 <= i < s@.len() && !('0' <= s@[i] <= '9') && (i > 0 || s@[i] != '+')
        }),
    ensures
        r is None,
{
    let digits = text::unsigned_digits(s@);
    if s@ == seq!['+'] {
        assert(digits.len() == 0);
    } else if s@.len() > 0 {
        if s@[0] == '+' {
            assert(digits[i - 1] == s@[i]);
            assert(!text::is_digit(digits[i - 1]));
        } else {
            assert(!text::is_digit(digits[i]));
        }
    }
}

/// A number that has been read does not exceed the maximum.
pub proof fn law_numbers_are_bounded(s: &str, max: u64, r: Option<u64>)
    requires
        call_ensures(text::parse_unsigned, (s, max), r),
    ensures
        r matches Some(n) ==> n <= max,
{
}

/// Zeros that precede a number change its length but not its value.
pub proof fn law_zeros_keep_the_value(n: u64, width: usize, r: String, plain: String)
    requires
        call_ensures(text::zero_pad, (n, width), r),
        call_ensures(text::decimal_string, (n,), plain),
    ensures
        r@.len() == (if plain@.len() < width {
            width as nat
        } else {
            plain@.len()
        }),
        r@.skip(r@.len() - plain@.len()) == plain@,
        forall|i: int| 0 <= i < r@.len() - plain@.len() ==> #[trigger] r@[i] == '0',
{
    assert(r@.skip(r@.len() - plain@.len()) =~= plain@);
}

// PARTS OF TEXT ***************************************************************

/// Joining pieces of text with a separator between them is undone by splitting at
/// the separator: nothing is lost, and no piece contains the separator.
pub proof fn law_splitting_is_undone(
    s: &str,
    separator: char,
    pieces: Vec<String>,
    between: &str,
    r: String,
)
    requires
        call_ensures(text::split_text, (s, separator), pieces),
        between@ == seq![separator],
        call_ensures(text::join_text, (&pieces, between), r),
    ensures
        r@ == s@,
        pieces@.len() > 0,
        forall|i: int, j: int|
            0 <= i < pieces@.len() && 0 <= j < pieces@[i]@.len() ==> #[trigger] pieces@[i]@[j]
                != separator,
{
    lemma_split(s@, separator);
    let views = text::views(pieces@);
    assert forall|i: int, j: int|
        0 <= i < pieces@.len() && 0 <= j < pieces@[i]@.len() implies #[trigger] pieces@[i]@[j]
        != separator by {
        assert(views[i] == pieces@[i]@);
        assert(views[i][j] != separator);
    }
}

/// The pieces of a text, joined again, are that text.
proof fn lemma_split(s: Seq<char>, separator: char)
    ensures
        text::split_on(s, separator).len() > 0,
        text::joined(text::split_on(s, separator), seq![separator]) == s,
        forall|i: int, j: int|
            0 <= i < text::split_on(s, separator).len() && 0 <= j < text::split_on(
                s,
                separator,
            )[i].len() ==> #[trigger] text::split_on(s, separator)[i][j] != separator,
    decreases s.len(),
{
    let pieces = text::split_on(s, separator);
    let between = seq![separator];
    if s.len() == 0 {
        assert(pieces =~= seq![Seq::<char>::empty()]);
        assert(text::joined(pieces, between) =~= s);
    } else {
        let rest = s.drop_last();
        let before = text::split_on(rest, separator);
        lemma_split(rest, separator);
        assert(s =~= rest.push(s.last()));
        if s.last() == separator {
            assert(pieces.drop_last() =~= before);
            assert(text::joined(pieces, between) =~= s);
        } else {
            assert(pieces.drop_last() =~= before.drop_last());
            if before.len() == 1 {
                assert(text::joined(before, between) == before[0]);
                assert(text::joined(pieces, between) == pieces[0]);
                assert(pieces[0] =~= s);
            } else {
                assert(text::joined(before, between) =~= text::joined(before.drop_last(), between)
                    + between + before.last());
                assert(text::joined(pieces, between) =~= s);
            }
            assert forall|i: int, j: int|
                0 <= i < pieces.len() && 0 <= j < pieces[i].len() implies #[trigger] pieces[i][j]
                != separator by {
                if i < before.len() - 1 {
                    assert(pieces[i] == before[i]);
                    assert(before[i][j] != separator);
                } else if j < before.last().len() {
                    assert(pieces[i][j] == before[i][j]);
                }
            }
        }
    }
}

/// A text has a prefix exactly if it consists of the prefix and something behind it.
pub proof fn law_prefixes(s: &str, prefix: &str, rest: Seq<char>, r: bool)
    requires
        call_ensures(text::has_prefix, (s, prefix), r),
    ensures
        s@ == prefix@ + rest ==> r,
        r ==> s@ == prefix@ + s@.skip(prefix@.len() as int),
{
    if s@ == prefix@ + rest {
        assert(s@.take(prefix@.len() as int) =~= prefix@);
    }
    if r {
        assert(s@ =~= s@.take(prefix@.len() as int) + s@.skip(prefix@.len() as int));
    }
}

/// A text contains another one exactly if it consists of that text and something
/// around it.
pub proof fn law_parts(s: &str, part: &str, before: Seq<char>, after: Seq<char>, r: bool)
    requires
        call_ensures(text::has_text, (s, part), r),
    ensures
        s@ == before + part@ + after ==> r,
        r ==> exists|i: int|
            0 <= i <= s@.len() && s@ == #[trigger] s@.take(i) + part@ + s@.skip(i + part@.len()),
{
    if s@ == before + part@ + after {
        let i = before.len() as int;
        assert(s@.subrange(i, i + part@.len()) =~= part@);
        assert(text::occurs_at(s@, part@, i));
    }
    if r {
        let i = choose|i: int| text::occurs_at(s@, part@, i);
        assert(s@ =~= s@.take(i) + part@ + s@.skip(i + part@.len())) by {
            assert(s@ =~= s@.take(i) + s@.subrange(i, i + part@.len()) + s@.skip(i + part@.len()));
        }
    }
}

/// Texts are the same exactly if they consist of the same characters.
pub proof fn law_same_text(a: &str, b: &str, r: bool)
    requires
        call_ensures(text::same_text, (a, b), r),
    ensures
        r <==> a@.len() == b@.len() && forall|i: int| 0 <= i < a@.len() ==> a@[i] == b@[i],
{
    if a@.len() == b@.len() && forall|i: int| 0 <= i < a@.len() ==> a@[i] == b@[i] {
        assert(a@ =~= b@);
    }
}

/// Text that is padded starts with that text, followed by spaces up to the given
/// width. It is never cut off.
pub proof fn law_padding(s: &str, width: usize, r: String)
    requires
        call_ensures(text::pad_right, (s, width), r),
    ensures
        r@.len() == (if s@.len() < width {
            width as nat
        } else {
            s@.len()
        }),
        r@.take(s@.len() as int) == s@,
        forall|i: int| s@.len() <= i < r@.len() ==> #[trigger] r@[i] == ' ',
{
    assert(r@.take(s@.len() as int) =~= s@);
}

/// Turning text into upper case changes exactly the lower case letters, and keeps
/// everything in its place. Doing so again changes nothing.
pub proof fn law_uppercase(s: &str, r: String, upper: &str, again: String, i: int)
    requires
        call_ensures(text::to_uppercase_text, (s,), r),
        upper@ == r@,
        call_ensures(text::to_uppercase_text, (upper,), again),
        0 <= i < s@.len(),
    ensures
        r@.len() == s@.len(),
        'a' <= s@[i] <= 'z' ==> r@[i] as int - 'A' as int == s@[i] as int - 'a' as int,
        !('a' <= s@[i] <= 'z') ==> r@[i] == s@[i],
        again@ == r@,
{
    assert forall|j: int| 0 <= j < s@.len() implies #[trigger] again@[j] == r@[j] by {
        assert(r@[j] == text::upper(s@[j]));
        assert(again@[j] == text::upper(r@[j]));
        if 'a' <= s@[j] <= 'z' {
            assert(text::upper(s@[j]) as int == s@[j] as int - 32);
        }
    }
    assert(again@ =~= r@);
    assert(r@[i] == text::upper(s@[i]));
    if 'a' <= s@[i] <= 'z' {
        assert(text::upper(s@[i]) as int == s@[i] as int - 32);
    }
}

/// Repeating a character gives as many of that character as requested.
pub proof fn law_repetition(c: char, n: usize, r: String)
    requires
        call_ensures(text::repeat_char, (c, n), r),
    ensures
        r@.len() == n,
        forall|i: int| 0 <= i < n ==> #[trigger] r@[i] == c,
{
}

/// Copies hold what they were copied from, and characters keep their order.
pub proof fn law_copies(
    s: &str,
    chars: Vec<char>,
    optional: Option<String>,
    copied: Option<String>,
    all: Vec<String>,
    copies: Vec<String>,
)
    requires
        call_ensures(text::chars_of, (s,), chars),
        call_ensures(text::clone_opt, (&optional,), copied),
        call_ensures(text::clone_all, (&all,), copies),
    ensures
        chars@ == s@,
        copied == optional,
        copies@ == all@,
{
}

/// The model of an optional text, and that of a list of texts, tell exactly what they
/// are.
pub proof fn law_texts_are_modeled(optional: Option<String>, all: Seq<String>, i: int)
    ensures
        optional matches Some(s) ==> text::opt_view(optional) == Some(s@),
        optional is None ==> text::opt_view(optional) is None,
        text::views(all).len() == all.len(),
        0 <= i < all.len() ==> text::views(all)[i] == all[i]@,
{
}

} // verus!
