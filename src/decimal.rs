//! Decimal text of port numbers.
use vstd::prelude::*;

verus! {

/// The value of a decimal digit, or -1 for any other character.
pub open spec fn digit_value(c: char) -> int {
    if c == '0' { 0 }
    else if c == '1' { 1 }
    else if c == '2' { 2 }
    else if c == '3' { 3 }
    else if c == '4' { 4 }
    else if c == '5' { 5 }
    else if c == '6' { 6 }
    else if c == '7' { 7 }
    else if c == '8' { 8 }
    else if c == '9' { 9 }
    else { -1 }
}

/// The character of the decimal digit `d`, for `0 <= d < 10`.
pub open spec fn digit_char(d: int) -> char {
    if d == 0 { '0' }
    else if d == 1 { '1' }
    else if d == 2 { '2' }
    else if d == 3 { '3' }
    else if d == 4 { '4' }
    else if d == 5 { '5' }
    else if d == 6 { '6' }
    else if d == 7 { '7' }
    else if d == 8 { '8' }
    else { '9' }
}

pub open spec fn all_digits(t: Seq<char>) -> bool {
    forall|i: int| 0 <= i < t.len() ==> digit_value(#[trigger] t[i]) >= 0
}

/// The number that a string of decimal digits denotes.
pub open spec fn dec_value(t: Seq<char>) -> nat
    decreases t.len(),
{
    if t.len() == 0 {
        0
    } else {
        dec_value(t.drop_last()) * 10 + digit_value(t.last()) as nat
    }
}

/// The shortest decimal text of `n`.
pub open spec fn dec_digits(n: nat) -> Seq<char>
    decreases n,
{
    if n < 10 {
        seq![digit_char(n as int)]
    } else {
        dec_digits(n / 10).push(digit_char((n % 10) as int))
    }
}

/// The port that a string of digits denotes: one or more decimal digits
/// whose value fits in 16 bits.
pub open spec fn digits_port(t: Seq<char>) -> Option<u16> {
    if t.len() > 0 && all_digits(t) && dec_value(t) <= 65535 {
        Some(dec_value(t) as u16)
    } else {
        None
    }
}

/// The digits of a port text: all of it, or all after one leading `+`.
pub open spec fn unsigned_digits(t: Seq<char>) -> Seq<char> {
    if t.len() > 0 && t[0] == '+' {
        t.drop_first()
    } else {
        t
    }
}

/// The port that a text denotes: an optional `+`, then one or more decimal
/// digits whose value fits in 16 bits.
pub open spec fn port_of(t: Seq<char>) -> Option<u16> {
    digits_port(unsigned_digits(t))
}

pub proof fn lemma_dec_digits(n: nat)
    ensures
        dec_digits(n).len() > 0,
        all_digits(dec_digits(n)),
        dec_value(dec_digits(n)) == n,
    decreases n,
{
    if n >= 10 {
        lemma_dec_digits(n / 10);
        let t = dec_digits(n);
        let d = (n % 10) as int;
        assert(t.drop_last() =~= dec_digits(n / 10));
        assert(t.last() == digit_char(d));
        assert(digit_value(digit_char(d)) == d);
        assert(n / 10 * 10 + n % 10 == n);
        assert(dec_value(t) == dec_value(t.drop_last()) * 10 + digit_value(t.last()) as nat);
        assert forall|i: int| 0 <= i < t.len() implies digit_value(#[trigger] t[i]) >= 0 by {
            if i < t.len() - 1 {
                assert(t[i] == dec_digits(n / 10)[i]);
            }
        }
    } else {
        let t = dec_digits(n);
        assert(digit_value(digit_char(n as int)) == n);
        assert(t.drop_last() =~= Seq::<char>::empty());
        assert(dec_value(t) == dec_value(t.drop_last()) * 10 + digit_value(t.last()) as nat);
    }
}

/// Reading back the shortest decimal text of a port gives the port.
pub proof fn lemma_port_text_round_trip(p: u16)
    ensures
        port_of(dec_digits(p as nat)) == Some(p),
{
    lemma_dec_digits(p as nat);
    let t = dec_digits(p as nat);
    assert(digit_value(t[0]) >= 0);
    assert(unsigned_digits(t) == t);
}

fn digit_text(d: u16) -> (r: &'static str)
    requires
        d < 10,
    ensures
        r@ == seq![digit_char(d as int)],
{
    match d {
        0 => { proof { reveal_strlit("0"); } "0" },
        1 => { proof { reveal_strlit("1"); } "1" },
        2 => { proof { reveal_strlit("2"); } "2" },
        3 => { proof { reveal_strlit("3"); } "3" },
        4 => { proof { reveal_strlit("4"); } "4" },
        5 => { proof { reveal_strlit("5"); } "5" },
        6 => { proof { reveal_strlit("6"); } "6" },
        7 => { proof { reveal_strlit("7"); } "7" },
        8 => { proof { reveal_strlit("8"); } "8" },
        _ => { proof { reveal_strlit("9"); } "9" },
    }
}

/// Appends the shortest decimal text of `n` to `s`.
pub fn push_decimal(s: &mut String, n: u16)
    ensures
        final(s)@ == old(s)@ + dec_digits(n as nat),
    decreases n,
{
    if n >= 10 {
        push_decimal(s, n / 10);
    }
    s.append(digit_text(n % 10));
    assert(s@ =~= old(s)@ + dec_digits(n as nat));
}

fn char_digit(c: char) -> (r: Option<u32>)
    ensures
        r matches Some(d) ==> d as int == digit_value(c) && d < 10,
        r is None ==> digit_value(c) < 0,
{
    match c {
        '0' => Some(0),
        '1' => Some(1),
        '2' => Some(2),
        '3' => Some(3),
        '4' => Some(4),
        '5' => Some(5),
        '6' => Some(6),
        '7' => Some(7),
        '8' => Some(8),
        '9' => Some(9),
        _ => None,
    }
}

/// Reads a port number written in decimal, with an optional leading `+`.
pub fn parse_port(t: &str) -> (r: Option<u16>)
    ensures
        r == port_of(t@),
{
    let n = t.unicode_len();
    if n > 0 && t.get_char(0) == '+' {
        let digits = t.substring_char(1, n);
        assert(digits@ =~= t@.drop_first());
        parse_digits(digits)
    } else {
        parse_digits(t)
    }
}

/// Reads a port number written as decimal digits alone.
fn parse_digits(t: &str) -> (r: Option<u16>)
    ensures
        r == digits_port(t@),
{
    let n = t.unicode_len();
    if n == 0 {
        return None;
    }
    let mut value: u32 = 0;
    let mut over = false;
    let mut i: usize = 0;
    while i < n
        invariant
            n == t@.len(),
            i <= n,
            all_digits(t@.take(i as int)),
            over ==> dec_value(t@.take(i as int)) > 65535,
            !over ==> value == dec_value(t@.take(i as int)) && value <= 65535,
        decreases n - i,
    {
        let c = t.get_char(i);
        let ghost pre = t@.take(i as int);
        let ghost next = t@.take(i + 1);
        assert(next.drop_last() =~= pre);
        match char_digit(c) {
            None => {
                assert(!all_digits(t@));
                return None;
            },
            Some(d) => {
                if !over {
                    let v = value * 10 + d;
                    if v > 65535 {
                        over = true;
                    } else {
                        value = v;
                    }
                }
            },
        }
        assert forall|j: int| 0 <= j < i + 1 implies digit_value(#[trigger] next[j]) >= 0 by {
            if j < i {
                assert(next[j] == pre[j]);
            }
        }
        i += 1;
    }
    assert(t@.take(n as int) =~= t@);
    if over {
        None
    } else {
        Some(value as u16)
    }
}

} // verus!
