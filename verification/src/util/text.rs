//! Text primitives: the string operations used throughout the application,
//! each stated over the sequence of characters that a string holds.

use vstd::prelude::*;

verus! {

/// Appends the given character to the end of a string.
///
/// `std::string::String::push` is trusted to leave the existing characters in
/// place and to add exactly the given one behind them.
#[verifier::external_body]
fn push_char(s: &mut String, c: char)
    ensures
        final(s)@ == old(s)@.push(c),
{
    s.push(c);
}

// SPECIFICATIONS **************************************************************

/// The text of an optional string.
pub open spec fn opt_view(s: Option<String>) -> Option<Seq<char>> {
    match s {
        Some(s) => Some(s@),
        None => None,
    }
}

/// The texts of a sequence of strings, in order.
pub open spec fn views(v: Seq<String>) -> Seq<Seq<char>> {
    v.map_values(|s: String| s@)
}

/// The character that represents the given digit in base 10.
pub open spec fn digit(d: nat) -> char {
    (48 + d) as char
}

/// The base 10 representation of a number, without leading zeros.
pub open spec fn decimal(n: nat) -> Seq<char>
    decreases n,
{
    if n < 10 {
        seq![digit(n)]
    } else {
        decimal(n / 10).push(digit(n % 10))
    }
}

/// A sequence consisting of `n` repetitions of the character `c`.
pub open spec fn repeated(c: char, n: nat) -> Seq<char> {
    Seq::new(n, |i: int| c)
}

/// Whether the given character is an ASCII digit.
pub open spec fn is_digit(c: char) -> bool {
    '0' <= c <= '9'
}

/// The value of a sequence of ASCII digits in base 10.
pub open spec fn digits_value(s: Seq<char>) -> nat
    decreases s.len(),
{
    if s.len() == 0 {
        0
    } else {
        10 * digits_value(s.drop_last()) + (s.last() as int - 48) as nat
    }
}

/// Whether the given text is a sequence of at least one ASCII digit.
pub open spec fn all_digits(s: Seq<char>) -> bool {
    s.len() > 0 && forall|i: int| 0 <= i < s.len() ==> is_digit(#[trigger] s[i])
}

/// The digits of a number that may be preceded by a plus sign.
pub open spec fn unsigned_digits(s: Seq<char>) -> Seq<char> {
    if s.len() > 0 && s[0] == '+' {
        s.skip(1)
    } else {
        s
    }
}

/// The number not exceeding `max` that the given text represents in base 10,
/// or `None` if it does not represent any.
///
/// A representation consists of an optional plus sign, followed by at least one
/// digit.
pub open spec fn parsed_unsigned(s: Seq<char>, max: nat) -> Option<nat> {
    let digits = unsigned_digits(s);
    if all_digits(digits) && digits_value(digits) <= max {
        Some(digits_value(digits))
    } else {
        None
    }
}

/// The upper case equivalent of an ASCII letter. Other characters are left as
/// they are.
pub open spec fn upper(c: char) -> char {
    if 'a' <= c <= 'z' {
        (c as int - 32) as char
    } else {
        c
    }
}

/// The given text, with all ASCII letters in upper case.
pub open spec fn uppercase(s: Seq<char>) -> Seq<char> {
    s.map_values(|c: char| upper(c))
}

/// The pieces of the given text between occurrences of a separator. There is
/// always one piece more than there are separators.
pub open spec fn split_on(s: Seq<char>, separator: char) -> Seq<Seq<char>>
    decreases s.len(),
{
    if s.len() == 0 {
        seq![Seq::empty()]
    } else {
        let before = split_on(s.drop_last(), separator);
        if s.last() == separator {
            before.push(Seq::empty())
        } else {
            before.drop_last().push(before.last().push(s.last()))
        }
    }
}

/// The given texts in order, with the given text between each two of them.
pub open spec fn joined(parts: Seq<Seq<char>>, separator: Seq<char>) -> Seq<char>
    decreases parts.len(),
{
    if parts.len() == 0 {
        Seq::empty()
    } else if parts.len() == 1 {
        parts[0]
    } else {
        joined(parts.drop_last(), separator) + separator + parts.last()
    }
}

/// The given text, followed by as many spaces as it takes to reach the given
/// number of characters.
pub open spec fn padded(s: Seq<char>, width: nat) -> Seq<char> {
    if s.len() < width {
        s + repeated(' ', (width - s.len()) as nat)
    } else {
        s
    }
}

/// The base 10 representation of a number, preceded by as many zeros as it takes
/// to reach the given number of digits.
pub open spec fn zero_padded(n: nat, width: nat) -> Seq<char> {
    let digits = decimal(n);
    if digits.len() < width {
        repeated('0', (width - digits.len()) as nat) + digits
    } else {
        digits
    }
}

/// Whether the given text starts with the given prefix.
pub open spec fn starts_with(s: Seq<char>, prefix: Seq<char>) -> bool {
    prefix.len() <= s.len() && s.take(prefix.len() as int) == prefix
}

/// Whether `part` occurs in the given text at position `i`.
pub open spec fn occurs_at(s: Seq<char>, part: Seq<char>, i: int) -> bool {
    0 <= i && i + part.len() <= s.len() && s.subrange(i, i + part.len()) == part
}

/// Whether `part` occurs anywhere in the given text.
pub open spec fn contains(s: Seq<char>, part: Seq<char>) -> bool {
    exists|i: int| occurs_at(s, part, i)
}

// FUNCTIONS *******************************************************************

/// Tests whether two string slices hold the same text.
pub fn same_text(a: &str, b: &str) -> (r: bool)
    ensures
        r == (a@ == b@),
{
    a.to_owned() == b.to_owned()
}

/// Collects the characters of the given text.
pub fn chars_of(s: &str) -> (r: Vec<char>)
    ensures
        r@ == s@,
{
    let mut r: Vec<char> = Vec::new();
    for c in it: s.chars()
        invariant
            it.seq() == s@,
            r@ == s@.take(it.index()),
            it.index() == it.seq().len() ==> r@ =~= s@,
    {
        r.push(c);
    }
    r
}

/// Tests whether `part` occurs in `s` at position `i`.
fn matches_at(s: &Vec<char>, part: &Vec<char>, i: usize) -> (r: bool)
    requires
        i + part.len() <= s.len(),
    ensures
        r == occurs_at(s@, part@, i as int),
{
    let ghost found = s@.subrange(i as int, i + part.len());
    let mut j: usize = 0;
    while j < part.len()
        invariant
            j <= part.len(),
            i + part.len() <= s.len(),
            found == s@.subrange(i as int, i + part.len()),
            forall|k: int| 0 <= k < j ==> found[k] == part@[k],
        decreases part.len() - j,
    {
        if s[i + j] != part[j] {
            assert(found[j as int] != part@[j as int]);
            return false;
        }
        j = j + 1;
    }
    assert(found =~= part@);
    true
}

/// Tests whether the given text starts with the given prefix.
pub fn has_prefix(s: &str, prefix: &str) -> (r: bool)
    ensures
        r == starts_with(s@, prefix@),
{
    let s_chars = chars_of(s);
    let prefix_chars = chars_of(prefix);
    if prefix_chars.len() > s_chars.len() {
        return false;
    }
    assert(s@.take(prefix@.len() as int) == s@.subrange(0, prefix@.len() as int));
    matches_at(&s_chars, &prefix_chars, 0)
}

/// Tests whether `part` occurs anywhere in the given text.
pub fn has_text(s: &str, part: &str) -> (r: bool)
    ensures
        r == contains(s@, part@),
{
    let s_chars = chars_of(s);
    let part_chars = chars_of(part);
    if part_chars.len() > s_chars.len() {
        return false;
    }
    let last: usize = s_chars.len() - part_chars.len();
    let mut i: usize = 0;
    while i < last
        invariant
            i <= last,
            s_chars@ == s@,
            part_chars@ == part@,
            last + part_chars.len() == s_chars.len(),
            forall|k: int| 0 <= k < i ==> !occurs_at(s@, part@, k),
        decreases last - i,
    {
        if matches_at(&s_chars, &part_chars, i) {
            return true;
        }
        i = i + 1;
    }
    matches_at(&s_chars, &part_chars, last)
}

/// Copies an optional string.
pub fn clone_opt(s: &Option<String>) -> (r: Option<String>)
    ensures
        r == *s,
{
    match s {
        Some(s) => Some(s.clone()),
        None => None,
    }
}

/// Copies a list of strings.
pub fn clone_all(strings: &Vec<String>) -> (r: Vec<String>)
    ensures
        r@ == strings@,
{
    let mut r: Vec<String> = Vec::new();
    let mut i: usize = 0;
    while i < strings.len()
        invariant
            i <= strings.len(),
            r@ =~= strings@.take(i as int),
        decreases strings.len() - i,
    {
        r.push(strings[i].clone());
        i = i + 1;
    }
    r
}

/// Renders the given number in base 10.
pub fn decimal_string(n: u64) -> (r: String)
    ensures
        r@ == decimal(n as nat),
    decreases n,
{
    let mut r = if n < 10 {
        String::new()
    } else {
        decimal_string(n / 10)
    };
    let d: u8 = (n % 10) as u8;
    push_char(&mut r, (48 + d) as char);
    assert(r@ =~= decimal(n as nat));
    r
}

/// Creates a string consisting of `n` repetitions of the character `c`.
pub fn repeat_char(c: char, n: usize) -> (r: String)
    ensures
        r@ == repeated(c, n as nat),
{
    let mut r = String::new();
    let mut i: usize = 0;
    while i < n
        invariant
            i <= n,
            r@ =~= repeated(c, i as nat),
        decreases n - i,
    {
        push_char(&mut r, c);
        i = i + 1;
    }
    r
}

/// Appends as many spaces to the given text as it takes to reach the given
/// number of characters.
pub fn pad_right(s: &str, width: usize) -> (r: String)
    ensures
        r@ == padded(s@, width as nat),
{
    let len: usize = s.unicode_len();
    let mut r = s.to_owned();
    if len < width {
        r.append(repeat_char(' ', width - len).as_str());
    }
    r
}

/// Renders the given number in base 10, preceded by as many zeros as it takes to
/// reach the given number of digits.
pub fn zero_pad(n: u64, width: usize) -> (r: String)
    ensures
        r@ == zero_padded(n as nat, width as nat),
{
    let digits = decimal_string(n);
    let len: usize = digits.as_str().unicode_len();
    if len < width {
        let mut r = repeat_char('0', width - len);
        r.append(digits.as_str());
        r
    } else {
        digits
    }
}

/// Parses an unsigned number that does not exceed `max`.
pub fn parse_unsigned(s: &str, max: u64) -> (r: Option<u64>)
    ensures
        match r {
            Some(n) => parsed_unsigned(s@, max as nat) == Some(n as nat),
            None => parsed_unsigned(s@, max as nat) is None,
        },
{
    let len: usize = s.unicode_len();
    let start: usize = if len > 0 && s.get_char(0) == '+' {
        1
    } else {
        0
    };
    let ghost digits = unsigned_digits(s@);
    assert(digits =~= s@.skip(start as int));
    if start == len {
        return None;
    }
    let mut value: u64 = 0;
    let mut i: usize = start;
    while i < len
        invariant
            start <= i <= len,
            len == s@.len(),
            digits == s@.skip(start as int),
            value <= max,
            value == digits_value(digits.take(i - start)),
            forall|j: int| 0 <= j < i - start ==> is_digit(#[trigger] digits[j]),
            digits == unsigned_digits(s@),
        decreases len - i,
    {
        let c = s.get_char(i);
        assert(c == digits[i - start]);
        if c < '0' || c > '9' {
            assert(!all_digits(digits));
            return None;
        }
        let d: u64 = (c as u32 - 48) as u64;
        proof {
            let next = digits.take(i + 1 - start);
            assert(next.drop_last() =~= digits.take(i - start));
            assert(next.last() == c);
            assert(digits_value(next) == 10 * value + d);
            lemma_digits_value_monotonic(digits, i + 1 - start);
        }
        if d > max || value > (max - d) / 10 {
            return None;
        }
        value = value * 10 + d;
        i = i + 1;
    }
    assert(digits.take(len - start) =~= digits);
    Some(value)
}

/// Creates a copy of the given text with all ASCII letters in upper case.
pub fn to_uppercase_text(s: &str) -> (r: String)
    ensures
        r@ == uppercase(s@),
{
    let mut r = String::new();
    for c in it: s.chars()
        invariant
            it.seq() == s@,
            r@ =~= uppercase(s@.take(it.index())),
    {
        assert(s@.take(it.index() + 1) =~= s@.take(it.index()).push(c));
        if 'a' <= c && c <= 'z' {
            let code: u8 = c as u8 - 32;
            push_char(&mut r, code as char);
        } else {
            push_char(&mut r, c);
        }
    }
    assert(s@.take(s@.len() as int) =~= s@);
    r
}

/// Splits the given text at every occurrence of a separator.
pub fn split_text(s: &str, separator: char) -> (r: Vec<String>)
    ensures
        views(r@) == split_on(s@, separator),
{
    let mut r: Vec<String> = Vec::new();
    let mut current = String::new();
    for c in it: s.chars()
        invariant
            it.seq() == s@,
            views(r@).push(current@) =~= split_on(s@.take(it.index()), separator),
    {
        let ghost before = s@.take(it.index());
        let ghost after = s@.take(it.index() + 1);
        assert(after =~= before.push(c));
        assert(after.drop_last() =~= before);
        assert(views(r@).push(current@).drop_last() =~= views(r@));
        if c == separator {
            r.push(current);
            current = String::new();
        } else {
            push_char(&mut current, c);
        }
    }
    assert(s@.take(s@.len() as int) =~= s@);
    r.push(current);
    assert(views(r@) =~= split_on(s@, separator));
    r
}

/// Joins the given texts, with the given text between each two of them.
pub fn join_text(parts: &Vec<String>, separator: &str) -> (r: String)
    ensures
        r@ == joined(views(parts@), separator@),
{
    let mut r = String::new();
    let mut i: usize = 0;
    while i < parts.len()
        invariant
            i <= parts.len(),
            r@ =~= joined(views(parts@).take(i as int), separator@),
        decreases parts.len() - i,
    {
        let ghost next = views(parts@).take(i + 1);
        assert(next.drop_last() =~= views(parts@).take(i as int));
        if i > 0 {
            r.append(separator);
        }
        r.append(parts[i].as_str());
        i = i + 1;
    }
    assert(views(parts@).take(parts.len() as int) =~= views(parts@));
    r
}

/// A prefix of a sequence of digits does not represent a greater number than
/// the whole sequence.
proof fn lemma_digits_value_monotonic(s: Seq<char>, n: int)
    requires
        0 <= n <= s.len(),
    ensures
        digits_value(s.take(n)) <= digits_value(s),
    decreases s.len() - n,
{
    if n < s.len() {
        lemma_digits_value_monotonic(s, n + 1);
        assert(s.take(n + 1).drop_last() =~= s.take(n));
    } else {
        assert(s.take(n) =~= s);
    }
}

/// Different numbers have different representations.
pub proof fn lemma_decimal_injective(m: nat, n: nat)
    requires
        decimal(m) == decimal(n),
    ensures
        m == n,
    decreases m,
{
    lemma_decimal_length(m);
    lemma_decimal_length(n);
    if m >= 10 && n >= 10 {
        assert(decimal(m).drop_last() =~= decimal(m / 10));
        assert(decimal(n).drop_last() =~= decimal(n / 10));
        lemma_decimal_injective(m / 10, n / 10);
        assert(decimal(m).last() == digit(m % 10) && decimal(n).last() == digit(n % 10));
        assert(digit(m % 10) as nat == 48 + m % 10 && digit(n % 10) as nat == 48 + n % 10);
    } else {
        assert(decimal(m).last() == digit(m) && decimal(n).last() == digit(n));
        assert(digit(m) as nat == 48 + m && digit(n) as nat == 48 + n);
    }
}

/// Numbers have more than one digit if and only if they are not less than 10.
proof fn lemma_decimal_length(n: nat)
    ensures
        decimal(n).len() >= 1,
        n >= 10 <==> decimal(n).len() > 1,
    decreases n,
{
    if n >= 10 {
        lemma_decimal_length(n / 10);
    }
}

} // verus!
