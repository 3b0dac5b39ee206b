//! Text building blocks shared by the rest of the library: concatenation,
//! prefix and suffix tests, decimal numbers and previews, all stated over
//! sequences of characters.

use vstd::prelude::*;
use vstd::std_specs::iter::IteratorSpec;

verus! {

/// Trusted: `String::push` appends the given character to the end of the
/// string and changes nothing else.
pub assume_specification[ String::push ](s: &mut String, ch: char)
    ensures
        final(s)@ == old(s)@.push(ch),
;

/// The lowercase form that the standard library gives a text (Unicode case
/// mapping, as `str::to_lowercase` computes it).
pub uninterp spec fn lowercased(s: Seq<char>) -> Seq<char>;

/// Trusted: `str::to_lowercase` depends on the characters of its argument
/// alone; its result is named [`lowercased`].
pub assume_specification[ str::to_lowercase ](s: &str) -> (r: String)
    ensures
        r@ == lowercased(s@),
;

/// A text in double quotes with its special characters escaped, as the
/// standard library's `Debug` form of a string slice shows it.
pub uninterp spec fn debug_quoted(s: Seq<char>) -> Seq<char>;

/// Trusted: the `Debug` form of a string slice depends on its characters
/// alone; it is named [`debug_quoted`].
#[verifier::external_body]
pub(crate) fn quote(s: &str) -> (r: String)
    ensures
        r@ == debug_quoted(s@),
{
    format!("{:?}", s)
}

/// The texts of a list, as mathematical values.
pub open spec fn texts(list: Seq<String>) -> Seq<Seq<char>> {
    list.map_values(|s: String| s@)
}

/// `a` followed by `b`.
pub fn join2(a: &str, b: &str) -> (r: String)
    ensures
        r@ == a@ + b@,
{
    String::from_str(a).concat(b)
}

/// `a`, `b` and `c` in a row.
pub fn join3(a: &str, b: &str, c: &str) -> (r: String)
    ensures
        r@ == a@ + b@ + c@,
{
    String::from_str(a).concat(b).concat(c)
}

/// Whether two texts hold the same characters.
pub fn same_text(a: &str, b: &str) -> (eq: bool)
    ensures
        eq == (a@ == b@),
{
    let x = String::from_str(a);
    let y = String::from_str(b);
    x == y
}

/// Whether `s` begins with `prefix`.
pub fn has_prefix(s: &str, prefix: &str) -> (b: bool)
    ensures
        b == prefix@.is_prefix_of(s@),
{
    let n: usize = s.unicode_len();
    let m: usize = prefix.unicode_len();
    if m > n {
        false
    } else {
        same_text(s.substring_char(0, m), prefix)
    }
}

/// Whether `s` ends with `suffix`.
pub fn has_suffix(s: &str, suffix: &str) -> (b: bool)
    ensures
        b == suffix@.is_suffix_of(s@),
{
    let n: usize = s.unicode_len();
    let m: usize = suffix.unicode_len();
    if m > n {
        false
    } else {
        same_text(s.substring_char(n - m, n), suffix)
    }
}

/// The character that stands for a decimal digit.
pub open spec fn digit_char(d: int) -> char {
    if d == 0 {
        '0'
    } else if d == 1 {
        '1'
    } else if d == 2 {
        '2'
    } else if d == 3 {
        '3'
    } else if d == 4 {
        '4'
    } else if d == 5 {
        '5'
    } else if d == 6 {
        '6'
    } else if d == 7 {
        '7'
    } else if d == 8 {
        '8'
    } else {
        '9'
    }
}

/// The value of a decimal digit character, if it is one.
pub open spec fn digit_value(c: char) -> Option<int> {
    if c == '0' {
        Some(0)
    } else if c == '1' {
        Some(1)
    } else if c == '2' {
        Some(2)
    } else if c == '3' {
        Some(3)
    } else if c == '4' {
        Some(4)
    } else if c == '5' {
        Some(5)
    } else if c == '6' {
        Some(6)
    } else if c == '7' {
        Some(7)
    } else if c == '8' {
        Some(8)
    } else if c == '9' {
        Some(9)
    } else {
        None
    }
}

/// The decimal notation of a natural number, without sign or leading zeros.
pub open spec fn decimal(n: nat) -> Seq<char>
    decreases n,
{
    if n < 10 {
        seq![digit_char(n as int)]
    } else {
        decimal(n / 10).push(digit_char((n % 10) as int))
    }
}

/// The decimal notation of an integer: a minus sign before negative numbers.
pub open spec fn signed_decimal(n: int) -> Seq<char> {
    if n < 0 {
        seq!['-'] + decimal((-n) as nat)
    } else {
        decimal(n as nat)
    }
}

fn digit(d: u64) -> (c: char)
    requires
        d < 10,
    ensures
        c == digit_char(d as int),
{
    if d == 0 {
        '0'
    } else if d == 1 {
        '1'
    } else if d == 2 {
        '2'
    } else if d == 3 {
        '3'
    } else if d == 4 {
        '4'
    } else if d == 5 {
        '5'
    } else if d == 6 {
        '6'
    } else if d == 7 {
        '7'
    } else if d == 8 {
        '8'
    } else {
        '9'
    }
}

/// Appends the decimal notation of `n` to `out`.
pub fn push_decimal(out: &mut String, n: u64)
    ensures
        final(out)@ == old(out)@ + decimal(n as nat),
    decreases n,
{
    if n >= 10 {
        push_decimal(out, n / 10);
    }
    out.push(digit(n % 10));
    proof {
        let d = digit_char((n % 10) as int);
        if n >= 10 {
            assert(old(out)@ + decimal(n as nat) =~= (old(out)@ + decimal((n / 10) as nat)).push(
                d,
            ));
        } else {
            assert(old(out)@ + decimal(n as nat) =~= old(out)@.push(d));
        }
    }
}

/// The decimal notation of `n`.
pub fn decimal_string(n: u64) -> (r: String)
    ensures
        r@ == decimal(n as nat),
{
    let mut r = String::new();
    push_decimal(&mut r, n);
    assert(Seq::<char>::empty() + decimal(n as nat) =~= decimal(n as nat));
    r
}

/// The decimal notation of a signed number.
pub fn signed_decimal_string(n: i32) -> (r: String)
    ensures
        r@ == signed_decimal(n as int),
{
    let mut r = String::new();
    let wide: i64 = n as i64;
    if wide < 0 {
        r.push('-');
        push_decimal(&mut r, (0 - wide) as u64);
        assert(r@ =~= seq!['-'] + decimal((-n) as nat));
    } else {
        push_decimal(&mut r, wide as u64);
        assert(r@ =~= decimal(n as nat));
    }
    r
}

/// The value that a row of decimal digits denotes; digits that are none count
/// as zero.
pub open spec fn digits_value(s: Seq<char>) -> nat
    decreases s.len(),
{
    if s.len() == 0 {
        0
    } else {
        let d: int = match digit_value(s.last()) {
            Some(v) => v,
            None => 0,
        };
        (digits_value(s.drop_last()) * 10 + d) as nat
    }
}

/// Whether every character is a decimal digit.
pub open spec fn all_digits(s: Seq<char>) -> bool {
    forall|i: int| 0 <= i < s.len() ==> (#[trigger] digit_value(s[i])) is Some
}

/// What is left of a number's text once one leading plus sign is taken off.
pub open spec fn unsigned_body(s: Seq<char>) -> Seq<char> {
    if s.len() > 0 && s[0] == '+' {
        s.skip(1)
    } else {
        s
    }
}

/// The number that a text denotes: an optional plus sign, then at least one
/// decimal digit and nothing else, with a value that fits 64 bits. Any other
/// text denotes no number.
pub open spec fn parsed_u64(s: Seq<char>) -> Option<u64> {
    let body = unsigned_body(s);
    if body.len() > 0 && all_digits(body) && digits_value(body) <= u64::MAX {
        Some(digits_value(body) as u64)
    } else {
        None
    }
}

/// A row of digits is worth at least as much as any of its beginnings.
pub proof fn lemma_digits_value_grows(s: Seq<char>, k: int)
    requires
        0 <= k <= s.len(),
    ensures
        digits_value(s.take(k)) <= digits_value(s),
    decreases s.len(),
{
    if k == s.len() {
        assert(s.take(k) =~= s);
    } else {
        lemma_digits_value_grows(s.drop_last(), k);
        assert(s.drop_last().take(k) =~= s.take(k));
        assert(digits_value(s.drop_last()) * 10 >= digits_value(s.drop_last())) by (nonlinear_arith);
    }
}

fn digit_of(c: char) -> (d: Option<u64>)
    ensures
        match d {
            Some(v) => digit_value(c) == Some(v as int) && v < 10,
            None => digit_value(c) is None,
        },
{
    if c == '0' {
        Some(0)
    } else if c == '1' {
        Some(1)
    } else if c == '2' {
        Some(2)
    } else if c == '3' {
        Some(3)
    } else if c == '4' {
        Some(4)
    } else if c == '5' {
        Some(5)
    } else if c == '6' {
        Some(6)
    } else if c == '7' {
        Some(7)
    } else if c == '8' {
        Some(8)
    } else if c == '9' {
        Some(9)
    } else {
        None
    }
}

/// Reads an unsigned decimal number.
pub fn parse_u64(s: &str) -> (r: Option<u64>)
    ensures
        r == parsed_u64(s@),
{
    let n: usize = s.unicode_len();
    let start: usize = if n > 0 && s.get_char(0) == '+' {
        1
    } else {
        0
    };
    let digits = s.substring_char(start, n);
    let ghost body = digits@;
    assert(body =~= unsigned_body(s@));
    let mut it = digits.chars();
    let mut value: u64 = 0;
    let ghost mut done: int = 0;
    loop
        invariant
            body == digits@,
            body == unsigned_body(s@),
            (start < n) == (body.len() > 0),
            0 <= done <= body.len(),
            it.remaining() == body.skip(done),
            all_digits(body.take(done)),
            value == digits_value(body.take(done)),
        decreases body.len() - done,
    {
        match it.next() {
            None => {
                assert(body.take(done) =~= body);
                return if start < n {
                    Some(value)
                } else {
                    None
                };
            },
            Some(c) => {
                let ghost after = body.take(done + 1);
                proof {
                    assert(body.skip(done).drop_first() =~= body.skip(done + 1));
                    assert(after.drop_last() =~= body.take(done));
                }
                let next = match digit_of(c) {
                    None => None,
                    Some(d) => match value.checked_mul(10) {
                        None => None,
                        Some(scaled) => scaled.checked_add(d),
                    },
                };
                match next {
                    None => {
                        proof {
                            if digit_value(c) is Some {
                                assert(digits_value(after) > u64::MAX);
                                lemma_digits_value_grows(body, done + 1);
                            } else {
                                assert(digit_value(body[done]) is None);
                            }
                        }
                        return None;
                    },
                    Some(v) => {
                        value = v;
                        proof {
                            assert forall|i: int| 0 <= i < after.len() implies (
                            #[trigger] digit_value(after[i])) is Some by {
                                if i < done {
                                    assert(after[i] == body.take(done)[i]);
                                }
                            }
                            done = done + 1;
                        }
                    },
                }
            },
        }
    }
}

/// The texts of a list in a row, with `separator` between each two.
pub open spec fn joined(list: Seq<Seq<char>>, separator: Seq<char>) -> Seq<char>
    decreases list.len(),
{
    if list.len() == 0 {
        Seq::empty()
    } else if list.len() == 1 {
        list[0]
    } else {
        joined(list.drop_last(), separator) + separator + list.last()
    }
}

/// Joins the texts of a list, with `separator` between each two.
pub fn join_with(list: &Vec<String>, separator: &str) -> (r: String)
    ensures
        r@ == joined(texts(list@), separator@),
{
    let mut r = String::new();
    let mut index: usize = 0;
    while index < list.len()
        invariant
            index <= list@.len(),
            r@ == joined(texts(list@).take(index as int), separator@),
        decreases list@.len() - index,
    {
        proof {
            let before = texts(list@).take(index as int);
            let after = texts(list@).take(index + 1);
            assert(after.drop_last() =~= before);
            assert(after.last() == list@[index as int]@);
        }
        if index > 0 {
            r.append(separator);
        }
        r.append(list[index].as_str());
        proof {
            if index == 0 {
                assert(r@ =~= list@[0]@);
            }
        }
        index = index + 1;
    }
    assert(texts(list@).take(index as int) =~= texts(list@));
    r
}

/// The beginning of a text that is shown in place of the whole: the text
/// itself where it has at most `limit` characters, else its first `limit`
/// characters and three dots.
pub open spec fn preview_of(s: Seq<char>, limit: nat) -> Seq<char> {
    if s.len() > limit {
        s.take(limit as int) + seq!['.', '.', '.']
    } else {
        s
    }
}

/// Shortens a text for display.
pub fn preview(text: &str, limit: usize) -> (r: String)
    ensures
        r@ == preview_of(text@, limit as nat),
{
    let n: usize = text.unicode_len();
    if n > limit {
        proof {
            reveal_strlit("...");
            assert("..."@ =~= seq!['.', '.', '.']);
        }
        join2(text.substring_char(0, limit), "...")
    } else {
        String::from_str(text)
    }
}

} // verus!
