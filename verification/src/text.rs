//! Small building blocks for assembling text: single characters, runs of
//! spaces, decimal numbers and lines joined by a separator.

use vstd::prelude::*;
use vstd::string::*;

verus! {

/// `String::push` appends the character to the string and changes nothing
/// else of it.
pub assume_specification[ String::push ](s: &mut String, ch: char)
    ensures
        final(s)@ == old(s)@.push(ch),
;

/// `str::eq`, the `==` of string slices, holds exactly where the two have
/// the same characters.
pub assume_specification[ <str as PartialEq<str>>::eq ](a: &str, b: &str) -> (r: bool)
    ensures
        r == (a@ == b@),
;

/// A run of `n` spaces.
pub open spec fn spaces(n: nat) -> Seq<char> {
    Seq::new(n, |i: int| ' ')
}

/// Appends `n` spaces to `out`.
pub fn push_spaces(out: &mut String, n: usize)
    ensures
        final(out)@ == old(out)@ + spaces(n as nat),
{
    let mut i: usize = 0;
    while i < n
        invariant
            i <= n,
            out@ == old(out)@ + spaces(i as nat),
        decreases n - i,
    {
        out.push(' ');
        i += 1;
        assert(out@ =~= old(out)@ + spaces(i as nat));
    }
    assert(out@ =~= old(out)@ + spaces(n as nat));
}

/// The character that writes the digit `d` (0 to 9).
pub open spec fn digit_char(d: nat) -> char {
    (48 + d) as char
}

/// The decimal notation of `n`, without sign or leading zeros.
pub open spec fn decimal(n: nat) -> Seq<char>
    decreases n,
{
    if n < 10 {
        seq![digit_char(n)]
    } else {
        decimal(n / 10).push(digit_char(n % 10))
    }
}

fn digit(d: u8) -> (c: char)
    requires
        d < 10,
    ensures
        c == digit_char(d as nat),
{
    (48u8 + d) as char
}

/// Appends the decimal notation of `n` to `out`.
pub fn push_decimal(out: &mut String, n: u64)
    ensures
        final(out)@ == old(out)@ + decimal(n as nat),
    decreases n,
{
    if n >= 10 {
        push_decimal(out, n / 10);
    }
    let d: u8 = (n % 10) as u8;
    out.push(digit(d));
    assert(out@ =~= old(out)@ + decimal(n as nat));
}

/// A list of numbers in square brackets, separated by a comma and a space.
pub open spec fn number_list(items: Seq<u16>) -> Seq<char> {
    seq!['['] + number_list_body(items) + seq![']']
}

/// The numbers of a list without the brackets around them.
pub open spec fn number_list_body(items: Seq<u16>) -> Seq<char>
    decreases items.len(),
{
    if items.len() == 0 {
        Seq::empty()
    } else if items.len() == 1 {
        decimal(items[0] as nat)
    } else {
        number_list_body(items.drop_last()) + seq![',', ' '] + decimal(items.last() as nat)
    }
}

/// Appends `items` to `out` as a bracketed list.
pub fn push_number_list(out: &mut String, items: &Vec<u16>)
    ensures
        final(out)@ == old(out)@ + number_list(items@),
{
    out.push('[');
    let ghost start = out@;
    let mut i: usize = 0;
    while i < items.len()
        invariant
            i <= items.len(),
            start == old(out)@.push('['),
            out@ == start + number_list_body(items@.take(i as int)),
        decreases items.len() - i,
    {
        let ghost before = out@;
        if i > 0 {
            out.push(',');
            out.push(' ');
        }
        push_decimal(out, items[i] as u64);
        proof {
            let next = items@.take(i + 1);
            assert(next.drop_last() =~= items@.take(i as int));
            assert(next.last() == items@[i as int]);
            if i > 0 {
                assert(out@ =~= before + seq![',', ' '] + decimal(items@[i as int] as nat));
            }
            assert(out@ =~= start + number_list_body(next));
        }
        i += 1;
    }
    assert(items@.take(i as int) =~= items@);
    out.push(']');
    assert(out@ =~= old(out)@ + number_list(items@));
}

/// The lines of a text with a line feed between each two of them.
pub open spec fn join_lines(lines: Seq<Seq<char>>) -> Seq<char>
    decreases lines.len(),
{
    if lines.len() == 0 {
        Seq::empty()
    } else if lines.len() == 1 {
        lines[0]
    } else {
        join_lines(lines.drop_last()) + seq!['\n'] + lines.last()
    }
}

/// The characters of each string of a list.
pub open spec fn views(lines: Seq<String>) -> Seq<Seq<char>> {
    Seq::new(lines.len(), |i: int| lines[i]@)
}

/// Joins `lines` with a line feed between each two of them.
pub fn join(lines: &Vec<String>) -> (text: String)
    ensures
        text@ == join_lines(views(lines@)),
{
    let mut text = String::new();
    let mut i: usize = 0;
    while i < lines.len()
        invariant
            i <= lines.len(),
            text@ == join_lines(views(lines@).take(i as int)),
        decreases lines.len() - i,
    {
        let ghost before = text@;
        if i > 0 {
            text.push('\n');
        }
        text.append(lines[i].as_str());
        proof {
            let next = views(lines@).take(i + 1);
            assert(next.drop_last() =~= views(lines@).take(i as int));
            assert(next.last() == lines@[i as int]@);
            if i > 0 {
                assert(text@ =~= before + seq!['\n'] + lines@[i as int]@);
            } else {
                assert(text@ =~= lines@[0]@);
            }
        }
        i += 1;
    }
    assert(views(lines@).take(i as int) =~= views(lines@));
    text
}

/// The items of a list with a separator between each two of them.
pub open spec fn joined(items: Seq<Seq<char>>, separator: Seq<char>) -> Seq<char>
    decreases items.len(),
{
    if items.len() == 0 {
        Seq::empty()
    } else if items.len() == 1 {
        items[0]
    } else {
        joined(items.drop_last(), separator) + separator + items.last()
    }
}

/// The characters of each string slice of a list.
pub open spec fn slice_views(items: Seq<&str>) -> Seq<Seq<char>> {
    Seq::new(items.len(), |i: int| items[i]@)
}

/// Joins `items` with `separator` between each two of them.
pub fn join_with(items: &[&str], separator: &str) -> (text: String)
    ensures
        text@ == joined(slice_views(items@), separator@),
{
    let mut text = String::new();
    let mut i: usize = 0;
    while i < items.len()
        invariant
            i <= items@.len(),
            text@ == joined(slice_views(items@).take(i as int), separator@),
        decreases items@.len() - i,
    {
        let ghost before = text@;
        if i > 0 {
            text.append(separator);
        }
        text.append(items[i]);
        proof {
            let next = slice_views(items@).take(i + 1);
            assert(next.drop_last() =~= slice_views(items@).take(i as int));
            assert(next.last() == items@[i as int]@);
            if i > 0 {
                assert(text@ =~= before + separator@ + items@[i as int]@);
            } else {
                assert(text@ =~= items@[0]@);
            }
        }
        i += 1;
    }
    assert(slice_views(items@).take(i as int) =~= slice_views(items@));
    text
}

} // verus!
