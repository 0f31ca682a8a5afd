//! Text as the rest of the library needs it: blankness, trimming, padding, joining and decimal
//! numbers.
//!
//! Contracts speak of a string by its characters (`Seq<char>`).

use vstd::prelude::*;
use vstd::string::StrSliceExecFns;
use vstd::string::StringExecFns;

verus! {

/// The characters with the Unicode property `White_Space`.
pub open spec fn is_white_space(c: char) -> bool {
    ||| '\u{9}' <= c <= '\u{d}'
    ||| c == ' '
    ||| c == '\u{85}'
    ||| c == '\u{a0}'
    ||| c == '\u{1680}'
    ||| '\u{2000}' <= c <= '\u{200a}'
    ||| c == '\u{2028}'
    ||| c == '\u{2029}'
    ||| c == '\u{202f}'
    ||| c == '\u{205f}'
    ||| c == '\u{3000}'
}

/// Text made of white space alone; the empty text is blank.
pub open spec fn is_blank(s: Seq<char>) -> bool {
    forall|i: int| 0 <= i < s.len() ==> is_white_space(#[trigger] s[i])
}

/// `s` without the white space at its end.
pub open spec fn trimmed_end(s: Seq<char>) -> Seq<char>
    decreases s.len(),
{
    if s.len() > 0 && is_white_space(s.last()) {
        trimmed_end(s.drop_last())
    } else {
        s
    }
}

/// `s` without the newlines at its end. Other white space stays.
pub open spec fn without_final_newlines(s: Seq<char>) -> Seq<char>
    decreases s.len(),
{
    if s.len() > 0 && s.last() == '\n' {
        without_final_newlines(s.drop_last())
    } else {
        s
    }
}

/// `s` followed by as many spaces as it takes to make it `width` characters long.
pub open spec fn padded(s: Seq<char>, width: nat) -> Seq<char> {
    if s.len() >= width {
        s
    } else {
        s + Seq::new((width - s.len()) as nat, |i: int| ' ')
    }
}

/// The pieces in order, with `separator` between neighbours.
pub open spec fn joined(pieces: Seq<Seq<char>>, separator: Seq<char>) -> Seq<char>
    decreases pieces.len(),
{
    if pieces.len() == 0 {
        Seq::empty()
    } else if pieces.len() == 1 {
        pieces[0]
    } else {
        joined(pieces.drop_last(), separator) + separator + pieces.last()
    }
}

/// The character for one decimal digit.
pub open spec fn digit_char(d: nat) -> char {
    (('0' as nat) + d) as char
}

/// `n` in decimal, without leading zeros.
pub open spec fn decimal(n: nat) -> Seq<char>
    decreases n,
{
    if n < 10 {
        seq![digit_char(n)]
    } else {
        decimal(n / 10).push(digit_char(n % 10))
    }
}

/// `n` in decimal, with a leading `-` where it is negative.
pub open spec fn signed_decimal(n: int) -> Seq<char> {
    if n < 0 {
        seq!['-'] + decimal((-n) as nat)
    } else {
        decimal(n as nat)
    }
}

/// Whether `c` is white space.
pub fn white_space(c: char) -> (res: bool)
    ensures
        res == is_white_space(c),
{
    ('\u{9}' <= c && c <= '\u{d}') || c == ' ' || c == '\u{85}' || c == '\u{a0}' || c == '\u{1680}'
        || ('\u{2000}' <= c && c <= '\u{200a}') || c == '\u{2028}' || c == '\u{2029}'
        || c == '\u{202f}' || c == '\u{205f}' || c == '\u{3000}'
}

/// Whether `s` holds nothing but white space.
pub fn blank(s: &str) -> (res: bool)
    ensures
        res == is_blank(s@),
{
    for c in it: s.chars()
        invariant
            it.seq() == s@,
            forall|i: int| 0 <= i < it.index() ==> is_white_space(#[trigger] s@[i]),
    {
        if !white_space(c) {
            return false;
        }
    }
    true
}

/// Drops the white space at the end of `s`.
pub fn trim_end(s: &str) -> (res: &str)
    ensures
        res@ == trimmed_end(s@),
{
    let len: usize = s.unicode_len();
    let mut seen: usize = 0;
    let mut keep: usize = 0;
    for c in it: s.chars()
        invariant
            it.seq() == s@,
            len == s@.len(),
            seen == it.index(),
            keep <= seen,
            trimmed_end(s@.take(it.index() as int)) == s@.take(keep as int),
    {
        assert(s@.take(seen + 1).drop_last() =~= s@.take(seen as int));
        seen = seen + 1;
        if !white_space(c) {
            keep = seen;
        }
    }
    assert(s@.take(len as int) =~= s@);
    s.substring_char(0, keep)
}

/// Drops the newlines at the end of `s`.
pub fn trim_end_newlines(s: &str) -> (res: &str)
    ensures
        res@ == without_final_newlines(s@),
{
    let len: usize = s.unicode_len();
    let mut seen: usize = 0;
    let mut keep: usize = 0;
    for c in it: s.chars()
        invariant
            it.seq() == s@,
            len == s@.len(),
            seen == it.index(),
            keep <= seen,
            without_final_newlines(s@.take(it.index() as int)) == s@.take(keep as int),
    {
        assert(s@.take(seen + 1).drop_last() =~= s@.take(seen as int));
        seen = seen + 1;
        if c != '\n' {
            keep = seen;
        }
    }
    assert(s@.take(len as int) =~= s@);
    s.substring_char(0, keep)
}

/// Appends `s` to `out`, padded with spaces on the right to `width` characters.
pub fn append_padded(out: &mut String, s: &str, width: usize)
    ensures
        final(out)@ == old(out)@ + padded(s@, width as nat),
{
    out.append(s);
    let mut written: usize = s.unicode_len();
    proof {
        reveal_strlit(" ");
        assert(out@ =~= old(out)@ + s@ + Seq::new(0, |i: int| ' '));
    }
    while written < width
        invariant
            s@.len() <= written,
            written <= width || written == s@.len(),
            out@ == old(out)@ + s@ + Seq::new((written - s@.len()) as nat, |i: int| ' '),
        decreases width - written,
    {
        proof {
            reveal_strlit(" ");
        }
        out.append(" ");
        written = written + 1;
        assert(out@ =~= old(out)@ + s@ + Seq::new((written - s@.len()) as nat, |i: int| ' '));
    }
    assert(out@ =~= old(out)@ + padded(s@, width as nat));
}

/// Joins `pieces` with `separator` between neighbours.
pub fn join(pieces: &Vec<&String>, separator: &str) -> (res: String)
    ensures
        res@ == joined(pieces.deep_view(), separator@),
{
    let mut out = String::new();
    for i in 0..pieces.len()
        invariant
            out@ == joined(pieces.deep_view().take(i as int), separator@),
    {
        let ghost shorter = pieces.deep_view().take(i as int);
        assert(pieces.deep_view().take(i + 1).drop_last() =~= shorter);
        if i > 0 {
            out.append(separator);
        }
        out.append(pieces[i].as_str());
        assert(out@ =~= joined(pieces.deep_view().take(i + 1), separator@));
    }
    assert(pieces.deep_view().take(pieces@.len() as int) =~= pieces.deep_view());
    out
}

/// One decimal digit as text.
fn digit(d: u64) -> (res: &'static str)
    requires
        d < 10,
    ensures
        res@ == seq![digit_char(d as nat)],
{
    proof {
        reveal_strlit("0");
        reveal_strlit("1");
        reveal_strlit("2");
        reveal_strlit("3");
        reveal_strlit("4");
        reveal_strlit("5");
        reveal_strlit("6");
        reveal_strlit("7");
        reveal_strlit("8");
        reveal_strlit("9");
    }
    match d {
        0 => "0",
        1 => "1",
        2 => "2",
        3 => "3",
        4 => "4",
        5 => "5",
        6 => "6",
        7 => "7",
        8 => "8",
        _ => "9",
    }
}

/// Appends `n` in decimal to `out`.
pub fn append_decimal(out: &mut String, n: u64)
    ensures
        final(out)@ == old(out)@ + decimal(n as nat),
    decreases n,
{
    if n >= 10 {
        append_decimal(out, n / 10);
    }
    out.append(digit(n % 10));
    assert(out@ =~= old(out)@ + decimal(n as nat));
}

/// Appends `n` in decimal to `out`, with a leading `-` where it is negative.
pub fn append_signed_decimal(out: &mut String, n: i32)
    ensures
        final(out)@ == old(out)@ + signed_decimal(n as int),
{
    if n < 0 {
        proof {
            reveal_strlit("-");
        }
        out.append("-");
        append_decimal(out, (-(n as i64)) as u64);
        assert(out@ =~= old(out)@ + signed_decimal(n as int));
    } else {
        append_decimal(out, n as u64);
    }
}

/// Different numbers are written differently.
pub proof fn decimal_tells_the_number(a: nat, b: nat)
    requires
        decimal(a) == decimal(b),
    ensures
        a == b,
    decreases a,
{
    lemma_decimal_len(a);
    lemma_decimal_len(b);
    assert(decimal(a).last() == digit_char(a % 10));
    assert(decimal(b).last() == digit_char(b % 10));
    if a >= 10 && b >= 10 {
        assert(decimal(a).drop_last() =~= decimal(a / 10));
        assert(decimal(b).drop_last() =~= decimal(b / 10));
        decimal_tells_the_number(a / 10, b / 10);
    }
}

/// A decimal number has at least one digit, and more than one from ten on.
proof fn lemma_decimal_len(n: nat)
    ensures
        decimal(n).len() >= 1,
        n >= 10 <==> decimal(n).len() > 1,
    decreases n,
{
    if n >= 10 {
        lemma_decimal_len(n / 10);
    }
}

/// A decimal number holds digits alone.
proof fn lemma_decimal_digits(n: nat, i: int)
    requires
        0 <= i < decimal(n).len(),
    ensures
        '0' <= decimal(n)[i] <= '9',
    decreases n,
{
    if n >= 10 && i < decimal(n / 10).len() {
        lemma_decimal_digits(n / 10, i);
    }
}

/// Different signed numbers are written differently.
pub proof fn signed_decimal_tells_the_number(a: int, b: int)
    requires
        signed_decimal(a) == signed_decimal(b),
    ensures
        a == b,
{
    let x = if a < 0 { (-a) as nat } else { a as nat };
    let y = if b < 0 { (-b) as nat } else { b as nat };
    lemma_decimal_len(x);
    lemma_decimal_len(y);
    lemma_decimal_digits(x, 0);
    lemma_decimal_digits(y, 0);
    if a < 0 {
        assert(signed_decimal(a)[0] == '-');
        assert(signed_decimal(a).drop_first() =~= decimal(x));
    } else {
        assert(signed_decimal(a)[0] == decimal(x)[0]);
    }
    if b < 0 {
        assert(signed_decimal(b)[0] == '-');
        assert(signed_decimal(b).drop_first() =~= decimal(y));
    } else {
        assert(signed_decimal(b)[0] == decimal(y)[0]);
    }
    decimal_tells_the_number(x, y);
}

/// Where text that is not blank stands at the end, only its own end is trimmed.
pub proof fn trimmed_end_of_concatenation(a: Seq<char>, b: Seq<char>)
    requires
        !is_blank(b),
    ensures
        trimmed_end(a + b) == a + trimmed_end(b),
        trimmed_end(b).len() > 0,
        !is_white_space(trimmed_end(b).last()),
    decreases b.len(),
{
    assert((a + b).last() == b.last());
    if is_white_space(b.last()) {
        let i = choose|i: int| 0 <= i < b.len() && !is_white_space(#[trigger] b[i]);
        assert(b.drop_last()[i] == b[i]);
        assert((a + b).drop_last() =~= a + b.drop_last());
        trimmed_end_of_concatenation(a, b.drop_last());
    }
}

/// Each piece stands in the joined text as a whole.
pub proof fn joined_holds_every_piece(pieces: Seq<Seq<char>>, separator: Seq<char>, i: int) -> (at:
    int)
    requires
        0 <= i < pieces.len(),
    ensures
        0 <= at,
        at + pieces[i].len() <= joined(pieces, separator).len(),
        joined(pieces, separator).subrange(at, at + pieces[i].len()) == pieces[i],
    decreases pieces.len(),
{
    let whole = joined(pieces, separator);
    if pieces.len() == 1 {
        assert(whole.subrange(0, pieces[0].len() as int) =~= pieces[0]);
        0
    } else if i == pieces.len() - 1 {
        let at = whole.len() - pieces[i].len();
        assert(whole.subrange(at, at + pieces[i].len()) =~= pieces[i]);
        at
    } else {
        let at = joined_holds_every_piece(pieces.drop_last(), separator, i);
        assert(pieces.drop_last()[i] == pieces[i]);
        let shorter = joined(pieces.drop_last(), separator);
        assert(whole.subrange(at, at + pieces[i].len()) =~= shorter.subrange(
            at,
            at + pieces[i].len(),
        ));
        at
    }
}

/// Blank text is what white space alone makes up: nothing is blank, one character is if it is
/// white space, and a whole is if its parts are.
pub proof fn blank_is_blank_in_every_part(a: Seq<char>, b: Seq<char>, c: char)
    ensures
        is_blank(Seq::<char>::empty()),
        is_blank(seq![c]) <==> is_white_space(c),
        is_blank(a + b) <==> is_blank(a) && is_blank(b),
{
    let one = seq![c];
    assert(one[0] == c);
    let whole = a + b;
    if is_blank(whole) {
        assert forall|i: int| 0 <= i < a.len() implies is_white_space(#[trigger] a[i]) by {
            assert(whole[i] == a[i]);
        }
        assert forall|i: int| 0 <= i < b.len() implies is_white_space(#[trigger] b[i]) by {
            assert(whole[a.len() + i] == b[i]);
        }
    }
}

/// Trimming takes all white space off the end and nothing else.
pub proof fn trimming_takes_the_final_white_space(s: Seq<char>)
    ensures
        trimmed_end(s).len() <= s.len(),
        trimmed_end(s) == s.take(trimmed_end(s).len() as int),
        trimmed_end(s).len() > 0 ==> !is_white_space(trimmed_end(s).last()),
        forall|i: int| trimmed_end(s).len() <= i < s.len() ==> is_white_space(#[trigger] s[i]),
    decreases s.len(),
{
    if s.len() > 0 && is_white_space(s.last()) {
        let shorter = s.drop_last();
        trimming_takes_the_final_white_space(shorter);
        let kept = trimmed_end(s).len() as int;
        assert(shorter.take(kept) =~= s.take(kept));
        assert forall|i: int| kept <= i < s.len() implies is_white_space(#[trigger] s[i]) by {
            if i < shorter.len() {
                assert(shorter[i] == s[i]);
            }
        }
    } else {
        assert(s.take(s.len() as int) =~= s);
    }
}

/// Dropping final newlines takes all newlines off the end and nothing else.
pub proof fn final_newlines_alone_are_dropped(s: Seq<char>)
    ensures
        without_final_newlines(s).len() <= s.len(),
        without_final_newlines(s) == s.take(without_final_newlines(s).len() as int),
        without_final_newlines(s).len() > 0 ==> without_final_newlines(s).last() != '\n',
        forall|i: int| without_final_newlines(s).len() <= i < s.len() ==> #[trigger] s[i] == '\n',
    decreases s.len(),
{
    if s.len() > 0 && s.last() == '\n' {
        let shorter = s.drop_last();
        final_newlines_alone_are_dropped(shorter);
        let kept = without_final_newlines(s).len() as int;
        assert(shorter.take(kept) =~= s.take(kept));
        assert forall|i: int| kept <= i < s.len() implies #[trigger] s[i] == '\n' by {
            if i < shorter.len() {
                assert(shorter[i] == s[i]);
            }
        }
    } else {
        assert(s.take(s.len() as int) =~= s);
    }
}

/// Padding keeps the text and fills up with spaces to the width; longer text stays as it is.
pub proof fn padding_fills_with_spaces(s: Seq<char>, width: nat)
    ensures
        padded(s, width).len() == if s.len() < width { width } else { s.len() },
        padded(s, width).take(s.len() as int) == s,
        forall|i: int| s.len() <= i < padded(s, width).len() ==> #[trigger] padded(s, width)[i] == ' ',
{
    assert(padded(s, width).take(s.len() as int) =~= s);
}

/// One piece is joined to itself, and two groups of pieces have one separator between them.
pub proof fn joining_separates_neighbours(
    piece: Seq<char>,
    first: Seq<Seq<char>>,
    second: Seq<Seq<char>>,
    separator: Seq<char>,
)
    ensures
        joined(Seq::empty(), separator) == Seq::<char>::empty(),
        joined(seq![piece], separator) == piece,
        first.len() > 0 && second.len() > 0 ==> joined(first + second, separator) == joined(
            first,
            separator,
        ) + separator + joined(second, separator),
    decreases second.len(),
{
    if first.len() > 0 && second.len() > 0 {
        let whole = first + second;
        let shorter = second.drop_last();
        assert(whole.drop_last() =~= first + shorter);
        assert(whole.last() == second.last());
        if shorter.len() == 0 {
            assert(first + shorter =~= first);
        } else {
            joining_separates_neighbours(piece, first, shorter, separator);
            assert(joined(whole, separator) =~= joined(first, separator) + separator + joined(
                second,
                separator,
            ));
        }
    }
}

/// A digit is written as itself, and a number as its tens followed by its last digit.
pub proof fn decimal_is_tens_and_last_digit(tens: nat, d: nat)
    requires
        d < 10,
    ensures
        decimal(d).len() == 1,
        decimal(d)[0] as nat == 48 + d,
        tens > 0 ==> decimal(10 * tens + d) == decimal(tens) + decimal(d),
{
    if tens > 0 {
        let n = 10 * tens + d;
        assert(n / 10 == tens && n % 10 == d);
        assert(decimal(n) =~= decimal(tens) + decimal(d));
    }
}

/// A negative number is a `-` and its magnitude; another number has no sign.
pub proof fn sign_stands_in_front(magnitude: nat)
    ensures
        signed_decimal(magnitude as int) == decimal(magnitude),
        magnitude > 0 ==> signed_decimal(-(magnitude as int)) == seq!['-'] + decimal(magnitude),
{
}

} // verus!
