//! The file-path rule: `{dir}/{channel}_{YYYY-MM-DD-HH-MM-SS}.log`, with the
//! timestamp fields zero-padded to fixed width.

use vstd::prelude::*;
use crate::time::Timestamp;

verus! {

/// The decimal digit character for a value in `0 ..= 9`.
pub open spec fn digit(d: int) -> char {
    if d == 0 {
        '0'
    } else if d == 1 {
        '1'
    } else if d == 2 {
        '2'
    } else if d == 3 {
        '3'
    } else if d == 4 {
        '4'
    } else if d == 5 {
        '5'
    } else if d == 6 {
        '6'
    } else if d == 7 {
        '7'
    } else if d == 8 {
        '8'
    } else {
        '9'
    }
}

/// Two-digit zero-padded decimal rendering of `n` (for `0 <= n <= 99`).
pub open spec fn pad2(n: int) -> Seq<char> {
    seq![digit(n / 10), digit(n % 10)]
}

/// Four-digit zero-padded decimal rendering of `n` (for `0 <= n <= 9999`).
pub open spec fn pad4(n: int) -> Seq<char> {
    let d3 = n / 1000;
    let r3 = n % 1000;
    let d2 = r3 / 100;
    let r2 = r3 % 100;
    seq![digit(d3), digit(d2), digit(r2 / 10), digit(r2 % 10)]
}

/// The nineteen-character timestamp segment `YYYY-MM-DD-HH-MM-SS`.
pub open spec fn stamp_chars(t: Timestamp) -> Seq<char> {
    pad4(t.year as int) + seq!['-'] + pad2(t.month as int) + seq!['-'] + pad2(t.day as int)
        + seq!['-'] + pad2(t.hour as int) + seq!['-'] + pad2(t.minute as int) + seq!['-'] + pad2(
        t.second as int,
    )
}

/// The full path for a channel's file at rotation timestamp `t`:
/// `{dir}/{name}_{YYYY-MM-DD-HH-MM-SS}.log`.
pub open spec fn path_chars(dir: Seq<char>, name: Seq<char>, t: Timestamp) -> Seq<char> {
    dir + seq!['/'] + name + seq!['_'] + stamp_chars(t) + seq!['.', 'l', 'o', 'g']
}

/// Distinct digit values render as distinct characters.
proof fn lemma_digit_inj(x: int, y: int)
    requires
        0 <= x <= 9,
        0 <= y <= 9,
        digit(x) == digit(y),
    ensures
        x == y,
{
}

/// Two-digit renderings are injective on `0 ..= 99`.
proof fn lemma_pad2_inj(x: int, y: int)
    requires
        0 <= x <= 99,
        0 <= y <= 99,
        pad2(x) == pad2(y),
    ensures
        x == y,
{
    assert(pad2(x)[0] == pad2(y)[0]);
    assert(pad2(x)[1] == pad2(y)[1]);
    lemma_digit_inj(x / 10, y / 10);
    lemma_digit_inj(x % 10, y % 10);
    assert(x == 10 * (x / 10) + x % 10);
    assert(y == 10 * (y / 10) + y % 10);
}

/// Four-digit renderings are injective on `0 ..= 9999`.
proof fn lemma_pad4_inj(x: int, y: int)
    requires
        0 <= x <= 9999,
        0 <= y <= 9999,
        pad4(x) == pad4(y),
    ensures
        x == y,
{
    assert(pad4(x)[0] == pad4(y)[0]);
    assert(pad4(x)[1] == pad4(y)[1]);
    assert(pad4(x)[2] == pad4(y)[2]);
    assert(pad4(x)[3] == pad4(y)[3]);
    lemma_digit_inj(x / 1000, y / 1000);
    lemma_digit_inj((x % 1000) / 100, (y % 1000) / 100);
    lemma_digit_inj((x % 1000) % 100 / 10, (y % 1000) % 100 / 10);
    lemma_digit_inj((x % 1000) % 100 % 10, (y % 1000) % 100 % 10);
    assert(x == 1000 * (x / 1000) + x % 1000);
    assert(x % 1000 == 100 * ((x % 1000) / 100) + (x % 1000) % 100);
    assert((x % 1000) % 100 == 10 * ((x % 1000) % 100 / 10) + (x % 1000) % 100 % 10);
    assert(y == 1000 * (y / 1000) + y % 1000);
    assert(y % 1000 == 100 * ((y % 1000) / 100) + (y % 1000) % 100);
    assert((y % 1000) % 100 == 10 * ((y % 1000) % 100 / 10) + (y % 1000) % 100 % 10);
}

/// The timestamp segment determines the six calendar fields: two
/// well-formed timestamps rendering to the same segment agree on them.
pub proof fn lemma_stamp_chars_inj(a: Timestamp, b: Timestamp)
    requires
        a.wf(),
        b.wf(),
        stamp_chars(a) == stamp_chars(b),
    ensures
        crate::time::same_stamp(a, b),
{
    assert(stamp_chars(a).subrange(0, 4) =~= pad4(a.year as int));
    assert(stamp_chars(b).subrange(0, 4) =~= pad4(b.year as int));
    lemma_pad4_inj(a.year as int, b.year as int);
    assert(stamp_chars(a).subrange(5, 7) =~= pad2(a.month as int));
    assert(stamp_chars(b).subrange(5, 7) =~= pad2(b.month as int));
    lemma_pad2_inj(a.month as int, b.month as int);
    assert(stamp_chars(a).subrange(8, 10) =~= pad2(a.day as int));
    assert(stamp_chars(b).subrange(8, 10) =~= pad2(b.day as int));
    lemma_pad2_inj(a.day as int, b.day as int);
    assert(stamp_chars(a).subrange(11, 13) =~= pad2(a.hour as int));
    assert(stamp_chars(b).subrange(11, 13) =~= pad2(b.hour as int));
    lemma_pad2_inj(a.hour as int, b.hour as int);
    assert(stamp_chars(a).subrange(14, 16) =~= pad2(a.minute as int));
    assert(stamp_chars(b).subrange(14, 16) =~= pad2(b.minute as int));
    lemma_pad2_inj(a.minute as int, b.minute as int);
    assert(stamp_chars(a).subrange(17, 19) =~= pad2(a.second as int));
    assert(stamp_chars(b).subrange(17, 19) =~= pad2(b.second as int));
    lemma_pad2_inj(a.second as int, b.second as int);
}

/// For one directory and one channel name, equal paths force equal
/// calendar fields of the rotation timestamps.
pub proof fn lemma_path_chars_inj(dir: Seq<char>, name: Seq<char>, a: Timestamp, b: Timestamp)
    requires
        a.wf(),
        b.wf(),
        path_chars(dir, name, a) == path_chars(dir, name, b),
    ensures
        crate::time::same_stamp(a, b),
{
    let start: int = (dir.len() + 1 + name.len() + 1) as int;
    assert(path_chars(dir, name, a).subrange(start, start + 19) =~= stamp_chars(a));
    assert(path_chars(dir, name, b).subrange(start, start + 19) =~= stamp_chars(b));
    lemma_stamp_chars_inj(a, b);
}

/// Path determinism: the computed file path is a function of the
/// directory, the channel name and the rotation timestamp alone, so
/// repeated computations for the same inputs agree.
pub proof fn lemma_path_deterministic(
    dir: Seq<char>,
    name: Seq<char>,
    t: Timestamp,
    p1: Seq<char>,
    p2: Seq<char>,
)
    requires
        p1 == path_chars(dir, name, t),
        p2 == path_chars(dir, name, t),
    ensures
        p1 == p2,
{
}

/// Rotation monotonicity: when rotation is due under a consistent clock,
/// the file in use after the boundary has a different path from the file
/// in use before it.
pub proof fn lemma_rotation_changes_path(
    dir: Seq<char>,
    name: Seq<char>,
    last: Timestamp,
    now: Timestamp,
    off: int,
)
    requires
        last.wf(),
        now.wf(),
        last.aligned(),
        crate::time::clock_consistent(last, off),
        crate::time::clock_consistent(now, off),
        crate::time::rotation_due_spec(last, now),
    ensures
        path_chars(dir, name, now.align_spec()) != path_chars(dir, name, last),
{
    crate::time::lemma_rotation_advances(last, now, off);
    if path_chars(dir, name, now.align_spec()) == path_chars(dir, name, last) {
        lemma_path_chars_inj(dir, name, now.align_spec(), last);
    }
}

/// Append the digit character for `d` to `s`.
fn push_digit(s: &mut String, d: u32)
    requires
        d <= 9,
    ensures
        final(s)@ == old(s)@ + seq![digit(d as int)],
{
    let ds: &str = if d == 0 {
        "0"
    } else if d == 1 {
        "1"
    } else if d == 2 {
        "2"
    } else if d == 3 {
        "3"
    } else if d == 4 {
        "4"
    } else if d == 5 {
        "5"
    } else if d == 6 {
        "6"
    } else if d == 7 {
        "7"
    } else if d == 8 {
        "8"
    } else {
        "9"
    };
    proof {
        reveal_strlit("0");
        reveal_strlit("1");
        reveal_strlit("2");
        reveal_strlit("3");
        reveal_strlit("4");
        reveal_strlit("5");
        reveal_strlit("6");
        reveal_strlit("7");
        reveal_strlit("8");
        reveal_strlit("9");
    }
    assert(ds@ =~= seq![digit(d as int)]);
    s.append(ds);
}

/// Append the two-digit rendering of `n` to `s`.
fn push_pad2(s: &mut String, n: u32)
    requires
        n <= 99,
    ensures
        final(s)@ == old(s)@ + pad2(n as int),
{
    push_digit(s, n / 10);
    push_digit(s, n % 10);
    assert(final(s)@ =~= old(s)@ + pad2(n as int));
}

/// Append the four-digit rendering of `n` to `s`.
fn push_pad4(s: &mut String, n: u32)
    requires
        n <= 9999,
    ensures
        final(s)@ == old(s)@ + pad4(n as int),
{
    let d3 = n / 1000;
    let r3 = n % 1000;
    let d2 = r3 / 100;
    let r2 = r3 % 100;
    push_digit(s, d3);
    push_digit(s, d2);
    push_digit(s, r2 / 10);
    push_digit(s, r2 % 10);
    assert(final(s)@ =~= old(s)@ + pad4(n as int));
}

/// Build the file path for channel `name` under `dir` at rotation
/// timestamp `t`, following the fixed `{dir}/{name}_{stamp}.log` rule.
pub fn build_path(dir: &str, name: &str, t: Timestamp) -> (r: String)
    requires
        t.wf(),
    ensures
        r@ == path_chars(dir@, name@, t),
{
    proof {
        reveal_strlit("/");
        reveal_strlit("_");
        reveal_strlit("-");
        reveal_strlit(".log");
    }
    let mut s = String::new();
    s.append(dir);
    s.append("/");
    s.append(name);
    s.append("_");
    push_pad4(&mut s, t.year as u32);
    s.append("-");
    push_pad2(&mut s, t.month);
    s.append("-");
    push_pad2(&mut s, t.day);
    s.append("-");
    push_pad2(&mut s, t.hour);
    s.append("-");
    push_pad2(&mut s, t.minute);
    s.append("-");
    push_pad2(&mut s, t.second);
    s.append(".log");
    assert(s@ =~= path_chars(dir@, name@, t));
    s
}

} // verus!
