use vstd::prelude::*;

verus! {

/// `text` wrapped into lines at most `width` columns wide.
pub uninterp spec fn filled(text: Seq<char>, width: nat) -> Seq<char>;

/// Relies on `textwrap::fill`: wraps the text at word boundaries into lines
/// of at most `width` columns. The result depends on the text and the width
/// alone.
#[verifier::external_body]
pub(crate) fn fill_text(text: &str, width: usize) -> (r: String)
    ensures
        r@ == filled(text@, width as nat),
{
    textwrap::fill(text, width)
}

/// Relies on `String::push`: the character is appended at the end.
pub assume_specification[ String::push ](s: &mut String, ch: char)
    ensures
        final(s)@ == old(s)@.push(ch),
;

/// `n` spaces.
pub open spec fn spaces(n: nat) -> Seq<char> {
    Seq::new(n, |i: int| ' ')
}

/// `s`, padded on the right with spaces to at least `width` characters.
pub open spec fn pad_right(s: Seq<char>, width: int) -> Seq<char> {
    if s.len() < width {
        s + spaces((width - s.len()) as nat)
    } else {
        s
    }
}

/// The decimal digit character of `d`, for `d` below ten.
pub open spec fn digit_char(d: nat) -> char {
    ((48 + d) as u8) as char
}

/// The decimal digits of `n`, most significant first, with no leading zero.
pub open spec fn decimal(n: nat) -> Seq<char>
    decreases n,
{
    if n < 10 {
        seq![digit_char(n)]
    } else {
        decimal(n / 10).push(digit_char(n % 10))
    }
}

/// The decimal digits of `n`, padded on the left with zeros to at least
/// `width` digits.
pub open spec fn zero_padded(n: nat, width: nat) -> Seq<char> {
    let d = decimal(n);
    if d.len() < width {
        Seq::new((width - d.len()) as nat, |i: int| '0') + d
    } else {
        d
    }
}

/// The header bar: the game's title and the room's name, padded for a
/// screen `columns` wide, then the score in six digits and the move count
/// in three.
pub open spec fn header_line(
    title: Seq<char>,
    room_name: Seq<char>,
    score: nat,
    moves: nat,
    columns: nat,
) -> Seq<char> {
    let t = " "@ + title + " | "@ + room_name;
    pad_right(t, columns + 6 - t.len()) + " Score: "@ + zero_padded(score, 6) + " | Moves: "@
        + zero_padded(moves, 3) + " "@
}

fn push_decimal(s: &mut String, n: u32)
    ensures
        final(s)@ == old(s)@ + decimal(n as nat),
    decreases n,
{
    if n >= 10 {
        push_decimal(s, n / 10);
    }
    let d: u32 = n % 10;
    s.push(((48 + d) as u8) as char);
    assert(d as nat == (n as nat) % 10);
    if n >= 10 {
        assert((n / 10) as nat == (n as nat) / 10);
    }
}

fn decimal_len(n: u32) -> (r: usize)
    ensures
        r == decimal(n as nat).len(),
        r <= n as nat + 1,
    decreases n,
{
    if n < 10 {
        1
    } else {
        assert((n / 10) as nat == (n as nat) / 10);
        decimal_len(n / 10) + 1
    }
}

/// Appends `n` in decimal, zero-padded to `width` digits.
fn push_zero_padded(s: &mut String, n: u32, width: usize)
    ensures
        final(s)@ == old(s)@ + zero_padded(n as nat, width as nat),
{
    let len = decimal_len(n);
    let ghost start = s@;
    if len < width {
        let mut i: usize = 0;
        while i < width - len
            invariant
                i <= width - len,
                len < width,
                s@ == start + Seq::new(i as nat, |j: int| '0'),
            decreases width - len - i,
        {
            s.push('0');
            i = i + 1;
            assert(s@ =~= start + Seq::new(i as nat, |j: int| '0'));
        }
    }
    let ghost mid = s@;
    push_decimal(s, n);
    assert(s@ =~= start + zero_padded(n as nat, width as nat));
}

/// Appends `other` to `s`.
fn push_str(s: &mut String, other: &str)
    ensures
        final(s)@ == old(s)@ + other@,
{
    s.append(other);
}

/// The header bar for a screen `columns` wide.
pub fn header_text(title: &str, room_name: &str, score: u32, moves: u32, columns: usize) -> (r:
    String)
    ensures
        r@ == header_line(title@, room_name@, score as nat, moves as nat, columns as nat),
{
    let mut t = String::new();
    push_str(&mut t, " ");
    push_str(&mut t, title);
    push_str(&mut t, " | ");
    push_str(&mut t, room_name);
    let ghost tv = t@;
    let t_len = t.as_str().unicode_len();
    let target: u128 = columns as u128 + 6;
    let used: u128 = 2 * (t_len as u128);
    let mut i: u128 = 0;
    if used < target {
        while i < target - used
            invariant
                used < target,
                i <= target - used,
                t@ == tv + spaces(i as nat),
            decreases target - used - i,
        {
            t.push(' ');
            i = i + 1;
            assert(t@ =~= tv + spaces(i as nat));
        }
    }
    assert(t@ =~= pad_right(tv, columns + 6 - tv.len()));
    push_str(&mut t, " Score: ");
    push_zero_padded(&mut t, score, 6);
    push_str(&mut t, " | Moves: ");
    push_zero_padded(&mut t, moves, 3);
    push_str(&mut t, " ");
    t
}

} // verus!
