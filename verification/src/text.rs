//! Building text: decimal numbers and verse references.
use vstd::prelude::*;

verus! {

/// The character of a single decimal digit.
pub open spec fn digit_char(d: nat) -> char {
    ('0' as u32 + d) as char
}

/// The decimal digits of `n`, most significant first, without leading zeros.
pub open spec fn digits(n: nat) -> Seq<char>
    decreases n,
{
    if n < 10 {
        seq![digit_char(n)]
    } else {
        digits(n / 10).push(digit_char(n % 10))
    }
}

/// The decimal notation of `i`: its digits, after a minus sign where it is negative.
pub open spec fn decimal(i: int) -> Seq<char> {
    if i < 0 {
        seq!['-'] + digits((-i) as nat)
    } else {
        digits(i as nat)
    }
}

/// The human-readable reference of a verse, such as `John 3:16`.
pub open spec fn reference(book: Seq<char>, chapter: i32, verse: i32) -> Seq<char> {
    book + seq![' '] + decimal(chapter as int) + seq![':'] + decimal(verse as int)
}

fn digit_str(d: u8) -> (s: &'static str)
    requires
        d < 10,
    ensures
        s@ == seq![digit_char(d as nat)],
{
    proof {
        reveal_strlit("0");
        reveal_strlit("1");
        reveal_strlit("2");
        reveal_strlit("3");
        reveal_strlit("4");
        reveal_strlit("5");
        reveal_strlit("6");
        reveal_strlit("7");
        reveal_strlit("8");
        reveal_strlit("9");
    }
    match d {
        0 => "0",
        1 => "1",
        2 => "2",
        3 => "3",
        4 => "4",
        5 => "5",
        6 => "6",
        7 => "7",
        8 => "8",
        _ => "9",
    }
}

fn append_digits(out: &mut String, n: u64)
    ensures
        final(out)@ == old(out)@ + digits(n as nat),
    decreases n,
{
    if n >= 10 {
        append_digits(out, n / 10);
    }
    out.append(digit_str((n % 10) as u8));
}

/// Appends the decimal notation of `i` to `out`.
pub fn append_decimal(out: &mut String, i: i64)
    ensures
        final(out)@ == old(out)@ + decimal(i as int),
{
    if i < 0 {
        proof {
            reveal_strlit("-");
        }
        out.append("-");
        let magnitude: u64 = (-(i as i128)) as u64;
        append_digits(out, magnitude);
        assert(out@ =~= old(out)@ + decimal(i as int));
    } else {
        append_digits(out, i as u64);
    }
}

/// Writes the reference of a verse.
pub fn format_reference(book: &str, chapter: i32, verse: i32) -> (out: String)
    ensures
        out@ == reference(book@, chapter, verse),
{
    proof {
        reveal_strlit(" ");
        reveal_strlit(":");
    }
    let mut out = book.to_owned();
    out.append(" ");
    append_decimal(&mut out, chapter as i64);
    out.append(":");
    append_decimal(&mut out, verse as i64);
    assert(out@ =~= reference(book@, chapter, verse));
    out
}

/// Joins two pieces of text.
pub fn joined(first: &str, second: &str) -> (out: String)
    ensures
        out@ == first@ + second@,
{
    let mut out = first.to_owned();
    out.append(second);
    out
}

/// Whether the text holds neither a blank nor a colon.
spec fn is_unbroken(s: Seq<char>) -> bool {
    forall|i: int| 0 <= i < s.len() ==> #[trigger] s[i] != ' ' && s[i] != ':'
}

proof fn lemma_digits_shape(n: nat)
    ensures
        digits(n).len() > 0,
        forall|i: int| 0 <= i < digits(n).len() ==> '0' <= #[trigger] digits(n)[i] <= '9',
    decreases n,
{
    if n >= 10 {
        lemma_digits_shape(n / 10);
    }
}

proof fn lemma_digits_distinct(a: nat, b: nat)
    requires
        digits(a) == digits(b),
    ensures
        a == b,
    decreases a,
{
    lemma_digits_shape(a / 10);
    lemma_digits_shape(b / 10);
    assert(digits(a).last() == digit_char(a % 10));
    assert(digits(b).last() == digit_char(b % 10));
    if a >= 10 && b >= 10 {
        assert(digits(a).drop_last() =~= digits(a / 10));
        assert(digits(b).drop_last() =~= digits(b / 10));
        lemma_digits_distinct(a / 10, b / 10);
    } else {
        assert(a >= 10 ==> digits(a).len() > 1);
        assert(b >= 10 ==> digits(b).len() > 1);
    }
}

/// Different numbers have different decimal notations.
pub proof fn law_decimals_are_distinct(a: int, b: int)
    requires
        decimal(a) == decimal(b),
    ensures
        a == b,
{
    let x: nat = if a < 0 { (-a) as nat } else { a as nat };
    let y: nat = if b < 0 { (-b) as nat } else { b as nat };
    lemma_digits_shape(x);
    lemma_digits_shape(y);
    assert(a < 0 ==> decimal(a)[0] == '-');
    assert(b < 0 ==> decimal(b)[0] == '-');
    assert(a >= 0 ==> decimal(a)[0] == digits(x)[0]);
    assert(b >= 0 ==> decimal(b)[0] == digits(y)[0]);
    if a < 0 {
        assert(decimal(a).skip(1) =~= digits(x));
        assert(decimal(b).skip(1) =~= digits(y));
    }
    lemma_digits_distinct(x, y);
}

proof fn lemma_decimal_is_unbroken(i: int)
    ensures
        is_unbroken(decimal(i)),
{
    lemma_digits_shape(
        if i < 0 {
            (-i) as nat
        } else {
            i as nat
        },
    );
}

proof fn lemma_split_at_last(a: Seq<char>, b: Seq<char>, c: Seq<char>, d: Seq<char>, mark: char)
    requires
        mark == ' ' || mark == ':',
        is_unbroken(b),
        is_unbroken(d),
        a + seq![mark] + b == c + seq![mark] + d,
    ensures
        a == c,
        b == d,
{
    let left = a + seq![mark] + b;
    let right = c + seq![mark] + d;
    assert(left.len() == a.len() + 1 + b.len());
    assert(right.len() == c.len() + 1 + d.len());
    assert(left[a.len() as int] == mark);
    assert(right[c.len() as int] == mark);
    if a.len() < c.len() {
        assert(left[c.len() as int] == b[c.len() - a.len() - 1]);
    } else if c.len() < a.len() {
        assert(right[a.len() as int] == d[a.len() - c.len() - 1]);
    }
    assert(a =~= left.take(a.len() as int));
    assert(c =~= right.take(a.len() as int));
    assert(b =~= left.skip(a.len() as int + 1));
    assert(d =~= right.skip(a.len() as int + 1));
}

/// A reference tells its verse: two verses with the same reference are of the same
/// book, chapter and number.
pub proof fn law_references_are_distinct(
    book: Seq<char>,
    chapter: i32,
    verse: i32,
    other_book: Seq<char>,
    other_chapter: i32,
    other_verse: i32,
)
    requires
        reference(book, chapter, verse) == reference(other_book, other_chapter, other_verse),
    ensures
        book == other_book,
        chapter == other_chapter,
        verse == other_verse,
{
    lemma_decimal_is_unbroken(chapter as int);
    lemma_decimal_is_unbroken(verse as int);
    lemma_decimal_is_unbroken(other_chapter as int);
    lemma_decimal_is_unbroken(other_verse as int);
    let first = book + seq![' '] + decimal(chapter as int);
    let second = other_book + seq![' '] + decimal(other_chapter as int);
    lemma_split_at_last(first, decimal(verse as int), second, decimal(other_verse as int), ':');
    lemma_split_at_last(
        book,
        decimal(chapter as int),
        other_book,
        decimal(other_chapter as int),
        ' ',
    );
    law_decimals_are_distinct(verse as int, other_verse as int);
    law_decimals_are_distinct(chapter as int, other_chapter as int);
}

/// The number that a run of decimal digits denotes, read from left to right.
pub open spec fn number_read(s: Seq<char>) -> int
    decreases s.len(),
{
    if s.len() == 0 {
        0
    } else {
        10 * number_read(s.drop_last()) + (s.last() as int - '0' as int)
    }
}

proof fn lemma_digits_read_back(n: nat)
    ensures
        number_read(digits(n)) == n,
        digits(n).len() > 1 ==> digits(n)[0] != '0',
        n >= 10 ==> digits(n).len() > 1,
        n > 0 ==> digits(n)[0] != '0',
    decreases n,
{
    reveal_with_fuel(number_read, 2);
    if n >= 10 {
        lemma_digits_read_back(n / 10);
        lemma_digits_shape(n / 10);
        assert(digits(n).drop_last() =~= digits(n / 10));
        assert(digits(n)[0] == digits(n / 10)[0]);
    } else {
        assert(digits(n).drop_last() =~= Seq::empty());
    }
}

/// A decimal notation reads back as its number. It is made of the characters `0` to `9`,
/// has no needless zero in front, and has a minus sign in front exactly where the
/// number is negative.
pub proof fn law_decimals_read_back(i: int)
    ensures
        i >= 0 ==> number_read(decimal(i)) == i,
        i >= 0 ==> decimal(i).len() > 0 && (decimal(i).len() > 1 ==> decimal(i)[0] != '0'),
        i >= 0 ==> (forall|k: int|
            0 <= k < decimal(i).len() ==> '0' <= #[trigger] decimal(i)[k] <= '9'),
        i < 0 ==> decimal(i) == seq!['-'] + decimal(-i),
{
    if i >= 0 {
        lemma_digits_read_back(i as nat);
        lemma_digits_shape(i as nat);
    }
}

/// A reference is the book's name, a blank, the chapter, a colon, and the verse.
pub proof fn law_references_read_book_chapter_verse(book: Seq<char>, chapter: i32, verse: i32)
    ensures
        ({
            let r = reference(book, chapter, verse);
            let c = decimal(chapter as int);
            let v = decimal(verse as int);
            let n = book.len() as int;
            &&& r.len() == n + 1 + c.len() + 1 + v.len()
            &&& r.take(n) == book
            &&& r[n] == ' '
            &&& r.subrange(n + 1, n + 1 + c.len()) == c
            &&& r[n + 1 + c.len()] == ':'
            &&& r.skip(n + 2 + c.len()) == v
        }),
{
    let r = reference(book, chapter, verse);
    let c = decimal(chapter as int);
    let n = book.len() as int;
    assert(r.take(n) =~= book);
    assert(r.subrange(n + 1, n + 1 + c.len()) =~= c);
    assert(r.skip(n + 2 + c.len()) =~= decimal(verse as int));
}

} // verus!
