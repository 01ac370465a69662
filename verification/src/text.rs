//! The pieces that the text of a record is made of: numbers in base ten,
//! addresses in base sixteen, strings in quotes, and indentation.

use vstd::prelude::*;
use vstd::std_specs::iter::IteratorSpec;

verus! {

/// The characters that stand for the digits from zero to fifteen.
pub open spec fn digit_chars() -> Seq<char> {
    seq!['0', '1', '2', '3', '4', '5', '6', '7', '8', '9', 'a', 'b', 'c', 'd', 'e', 'f']
}

/// The character that stands for the digit `d` in bases up to sixteen.
pub open spec fn digit_char(d: nat) -> char
    recommends
        d < 16,
{
    digit_chars()[d as int]
}

/// The digits of `n` in base `base`, most significant first. Zero is the
/// single digit `0`; no other number starts with `0`.
pub open spec fn digits(n: nat, base: nat) -> Seq<char>
    recommends
        2 <= base <= 16,
    decreases n,
    via digits_terminates
{
    if base < 2 || n < base {
        seq![digit_char(n)]
    } else {
        digits(n / base, base).push(digit_char(n % base))
    }
}

#[via_fn]
proof fn digits_terminates(n: nat, base: nat) {
    if base >= 2 && n >= base {
        lemma_quotient_smaller(n, base);
    }
}

/// Dividing a positive number by two or more makes it smaller, and quotient
/// and remainder put the number together again.
pub proof fn lemma_quotient_smaller(n: nat, base: nat)
    requires
        base >= 2,
    ensures
        n > 0 ==> n / base < n,
        (n / base) * base + n % base == n,
        n % base < base,
{
    assert(n > 0 ==> n / base < n) by (nonlinear_arith)
        requires
            base >= 2,
    ;
    assert((n / base) * base + n % base == n && n % base < base) by (nonlinear_arith)
        requires
            base >= 2,
    ;
}

/// `n` in base ten.
pub open spec fn decimal_text(n: nat) -> Seq<char> {
    digits(n, 10)
}

/// `n` the way an address is written: `0x`, then the digits in base sixteen.
pub open spec fn address_text(n: nat) -> Seq<char> {
    seq!['0', 'x'] + digits(n, 16)
}

/// The character for a digit below sixteen.
fn digit_to_char(d: u8) -> (c: char)
    requires
        d < 16,
    ensures
        c == digit_char(d as nat),
{
    let chars: [char; 16] = [
        '0', '1', '2', '3', '4', '5', '6', '7', '8', '9', 'a', 'b', 'c', 'd', 'e', 'f',
    ];
    assert(chars@ =~= digit_chars());
    chars[d as usize]
}

/// `String::push` of std appends one character to the end of the string and
/// leaves the rest as it was.
pub assume_specification[ String::push ](text: &mut String, c: char)
    ensures
        final(text)@ == old(text)@.push(c),
;

/// Appends the digits of `n` in base `base` to `out`.
fn push_digits(out: &mut String, n: u64, base: u8)
    requires
        2 <= base <= 16,
    ensures
        final(out)@ == old(out)@ + digits(n as nat, base as nat),
    decreases n,
{
    let wide: u64 = base as u64;
    if n >= wide {
        proof {
            lemma_quotient_smaller(n as nat, base as nat);
        }
        push_digits(out, n / wide, base);
        let low: u64 = n % wide;
        out.push(digit_to_char(low as u8));
        assert(out@ =~= old(out)@ + digits(n as nat, base as nat));
    } else {
        out.push(digit_to_char(n as u8));
        assert(out@ =~= old(out)@ + digits(n as nat, base as nat));
    }
}

/// Appends `n` in base ten to `out`.
pub fn push_decimal(out: &mut String, n: u64)
    ensures
        final(out)@ == old(out)@ + decimal_text(n as nat),
{
    push_digits(out, n, 10);
}

/// Appends `n`, written as an address, to `out`.
pub fn push_address(out: &mut String, n: u64)
    ensures
        final(out)@ == old(out)@ + address_text(n as nat),
{
    out.push('0');
    out.push('x');
    push_digits(out, n, 16);
}

/// How one character stands between double quotes: a quote and a backslash
/// get a backslash in front; a line feed, a carriage return and a tab are
/// written as a backslash and the letter `n`, `r` or `t`; every other
/// character stands for itself.
pub open spec fn escape_char(c: char) -> Seq<char> {
    if c == '"' {
        seq!['\\', '"']
    } else if c == '\\' {
        seq!['\\', '\\']
    } else if c == '\n' {
        seq!['\\', 'n']
    } else if c == '\r' {
        seq!['\\', 'r']
    } else if c == '\t' {
        seq!['\\', 't']
    } else {
        seq![c]
    }
}

/// The characters of `text`, each one escaped, in their order.
pub open spec fn escaped(text: Seq<char>) -> Seq<char>
    decreases text.len(),
{
    if text.len() == 0 {
        Seq::empty()
    } else {
        escaped(text.drop_last()) + escape_char(text.last())
    }
}

/// `text` between double quotes, escaped.
pub open spec fn quoted_text(text: Seq<char>) -> Seq<char> {
    seq!['"'] + escaped(text) + seq!['"']
}

/// Appends one character, escaped, to `out`.
pub fn push_escaped_char(out: &mut String, c: char)
    ensures
        final(out)@ == old(out)@ + escape_char(c),
{
    if c == '"' {
        out.push('\\');
        out.push('"');
    } else if c == '\\' {
        out.push('\\');
        out.push('\\');
    } else if c == '\n' {
        out.push('\\');
        out.push('n');
    } else if c == '\r' {
        out.push('\\');
        out.push('r');
    } else if c == '\t' {
        out.push('\\');
        out.push('t');
    } else {
        out.push(c);
    }
    assert(out@ =~= old(out)@ + escape_char(c));
}

/// Appends `text` between double quotes, escaped, to `out`.
pub fn push_quoted(out: &mut String, text: &str)
    ensures
        final(out)@ == old(out)@ + quoted_text(text@),
{
    out.push('"');
    let ghost start = out@;
    for c in it: text.chars()
        invariant
            it.seq() == text@,
            out@ == start + escaped(text@.take(it.index())),
    {
        assert(text@.take(it.index() + 1).drop_last() =~= text@.take(it.index()));
        push_escaped_char(out, c);
    }
    assert(text@.take(text@.len() as int) =~= text@);
    out.push('"');
    assert(out@ =~= old(out)@ + quoted_text(text@));
}

/// The blanks in front of a line that stands `level` levels deep: four for
/// each level.
pub open spec fn indent(level: nat) -> Seq<char> {
    Seq::new(4 * level, |i: int| ' ')
}

/// One level more is four blanks more.
pub proof fn lemma_indent_step(level: nat)
    ensures
        indent(level + 1) == indent(level) + seq![' ', ' ', ' ', ' '],
        indent(0) == Seq::<char>::empty(),
{
    assert(indent(level + 1) =~= indent(level) + seq![' ', ' ', ' ', ' ']);
    assert(indent(0) =~= Seq::<char>::empty());
}

/// Appends [`indent`] of `level` to `out`.
pub fn push_indent(out: &mut String, level: usize)
    ensures
        final(out)@ == old(out)@ + indent(level as nat),
{
    let mut done: usize = 0;
    proof {
        lemma_indent_step(0);
    }
    while done < level
        invariant
            done <= level,
            out@ == old(out)@ + indent(done as nat),
        decreases level - done,
    {
        out.push(' ');
        out.push(' ');
        out.push(' ');
        out.push(' ');
        proof {
            lemma_indent_step(done as nat);
        }
        done = done + 1;
    }
}

} // verus!
