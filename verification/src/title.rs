//! The window title that shows the frame rate: a whole number of frames per second in
//! decimal, followed by ` FPS`.

use vstd::prelude::*;

verus! {

/// The character of the decimal digit `d`.
pub open spec fn digit(d: nat) -> char {
    if d == 0 {
        '0'
    } else if d == 1 {
        '1'
    } else if d == 2 {
        '2'
    } else if d == 3 {
        '3'
    } else if d == 4 {
        '4'
    } else if d == 5 {
        '5'
    } else if d == 6 {
        '6'
    } else if d == 7 {
        '7'
    } else if d == 8 {
        '8'
    } else {
        '9'
    }
}

/// The decimal digits of `n`, most significant first, without leading zeros.
pub open spec fn digits(n: nat) -> Seq<char>
    decreases n,
{
    if n < 10 {
        seq![digit(n)]
    } else {
        digits(n / 10).push(digit(n % 10))
    }
}

/// `v` in decimal, with a minus sign in front where it is negative.
pub open spec fn decimal(v: int) -> Seq<char> {
    if v < 0 {
        seq!['-'] + digits((-v) as nat)
    } else {
        digits(v as nat)
    }
}

/// The title for `fps` frames per second.
pub open spec fn fps_title_text(fps: int) -> Seq<char> {
    decimal(fps) + seq![' ', 'F', 'P', 'S']
}

/// `String::push`: the character is appended to the end of the string.
#[verifier::external_body]
fn push_char(s: &mut String, c: char)
    ensures
        final(s)@ == old(s)@.push(c),
{
    s.push(c);
}

/// The character of the decimal digit `d`.
fn digit_char(d: u32) -> (c: char)
    requires
        d < 10,
    ensures
        c == digit(d as nat),
{
    if d == 0 {
        '0'
    } else if d == 1 {
        '1'
    } else if d == 2 {
        '2'
    } else if d == 3 {
        '3'
    } else if d == 4 {
        '4'
    } else if d == 5 {
        '5'
    } else if d == 6 {
        '6'
    } else if d == 7 {
        '7'
    } else if d == 8 {
        '8'
    } else {
        '9'
    }
}

/// The digits of `n`, but none at all for zero.
spec fn digits_or_none(n: nat) -> Seq<char> {
    if n == 0 {
        Seq::empty()
    } else {
        digits(n)
    }
}

/// The last digit of `n` follows the digits of `n / 10`, if that has any.
proof fn lemma_digits_step(n: nat)
    requires
        n > 0,
    ensures
        digits(n) == digits_or_none(n / 10).push(digit(n % 10)),
{
}

/// The title for `fps` frames per second: the number in decimal, then ` FPS`.
pub fn fps_title(fps: i32) -> (title: String)
    ensures
        title@ == fps_title_text(fps as int),
{
    let magnitude: u32 = if fps < 0 {
        (-(fps as i64)) as u32
    } else {
        fps as u32
    };
    // The digits, least significant first.
    let mut low_first: Vec<char> = Vec::new();
    let mut rest: u32 = magnitude;
    low_first.push(digit_char(rest % 10));
    rest = rest / 10;
    proof {
        if magnitude > 0 {
            lemma_digits_step(magnitude as nat);
        }
    }
    while rest > 0
        invariant
            low_first@.len() > 0,
            digits(magnitude as nat) == digits_or_none(rest as nat) + low_first@.reverse(),
        decreases rest,
    {
        proof {
            lemma_digits_step(rest as nat);
        }
        low_first.push(digit_char(rest % 10));
        rest = rest / 10;
    }
    let mut title = String::new();
    if fps < 0 {
        push_char(&mut title, '-');
    }
    let ghost sign = title@;
    let mut i: usize = low_first.len();
    while i > 0
        invariant
            i <= low_first@.len(),
            title@ == sign + low_first@.reverse().subrange(0, low_first@.len() - i),
        decreases i,
    {
        i = i - 1;
        push_char(&mut title, low_first[i]);
    }
    push_char(&mut title, ' ');
    push_char(&mut title, 'F');
    push_char(&mut title, 'P');
    push_char(&mut title, 'S');
    title
}

} // verus!
