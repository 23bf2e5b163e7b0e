use vstd::prelude::*;

verus! {

/// The character for one decimal digit.
pub open spec fn digit_char(d: int) -> char {
    if d == 0 {
        '0'
    } else if d == 1 {
        '1'
    } else if d == 2 {
        '2'
    } else if d == 3 {
        '3'
    } else if d == 4 {
        '4'
    } else if d == 5 {
        '5'
    } else if d == 6 {
        '6'
    } else if d == 7 {
        '7'
    } else if d == 8 {
        '8'
    } else {
        '9'
    }
}

/// Decimal text of `n`, most significant digit first, with no leading
/// zeroes (a single "0" for zero).
pub open spec fn dec_text(n: nat) -> Seq<char>
    decreases n,
{
    if n < 10 {
        Seq::<char>::empty().push(digit_char(n as int))
    } else {
        dec_text(n / 10).push(digit_char((n % 10) as int))
    }
}

/// Decimal text of `n`, zero-padded on the left to at least two digits.
pub open spec fn pad2_text(n: nat) -> Seq<char> {
    if n < 10 {
        seq!['0'] + dec_text(n)
    } else {
        dec_text(n)
    }
}

/// Decimal text of `n`, zero-padded on the left to at least three digits.
pub open spec fn pad3_text(n: nat) -> Seq<char> {
    if n < 10 {
        seq!['0', '0'] + dec_text(n)
    } else if n < 100 {
        seq!['0'] + dec_text(n)
    } else {
        dec_text(n)
    }
}

/// Decimal text of `n`, zero-padded on the left to at least four digits.
pub open spec fn pad4_text(n: nat) -> Seq<char> {
    if n < 10 {
        seq!['0', '0', '0'] + dec_text(n)
    } else if n < 100 {
        seq!['0', '0'] + dec_text(n)
    } else if n < 1000 {
        seq!['0'] + dec_text(n)
    } else {
        dec_text(n)
    }
}

/// The stopwatch display of a duration of `ms` milliseconds:
/// `HH:MM:SS.mmm`, hours growing past two digits when they must.
pub open spec fn time_text(ms: nat) -> Seq<char> {
    pad2_text(ms / 1000 / 3600) + seq![':'] + pad2_text((ms / 1000 / 60) % 60) + seq![':']
        + pad2_text((ms / 1000) % 60) + seq!['.'] + pad3_text(ms % 1000)
}

/// A wall-clock stamp shown as `YYYY-MM-DD HH:MM`.
pub open spec fn clock_text(year: nat, month: nat, day: nat, hour: nat, minute: nat) -> Seq<char> {
    pad4_text(year) + seq!['-'] + pad2_text(month) + seq!['-'] + pad2_text(day) + seq![' ']
        + pad2_text(hour) + seq![':'] + pad2_text(minute)
}

fn append_digit(s: &mut String, d: u64)
    requires
        d < 10,
    ensures
        final(s)@ == old(s)@.push(digit_char(d as int)),
{
    if d == 0 {
        proof {
            reveal_strlit("0");
        }
        s.append("0");
    } else if d == 1 {
        proof {
            reveal_strlit("1");
        }
        s.append("1");
    } else if d == 2 {
        proof {
            reveal_strlit("2");
        }
        s.append("2");
    } else if d == 3 {
        proof {
            reveal_strlit("3");
        }
        s.append("3");
    } else if d == 4 {
        proof {
            reveal_strlit("4");
        }
        s.append("4");
    } else if d == 5 {
        proof {
            reveal_strlit("5");
        }
        s.append("5");
    } else if d == 6 {
        proof {
            reveal_strlit("6");
        }
        s.append("6");
    } else if d == 7 {
        proof {
            reveal_strlit("7");
        }
        s.append("7");
    } else if d == 8 {
        proof {
            reveal_strlit("8");
        }
        s.append("8");
    } else {
        proof {
            reveal_strlit("9");
        }
        s.append("9");
    }
    assert(final(s)@ =~= old(s)@.push(digit_char(d as int)));
}

pub fn append_dec(s: &mut String, n: u64)
    ensures
        final(s)@ == old(s)@ + dec_text(n as nat),
    decreases n,
{
    if n < 10 {
        append_digit(s, n);
        assert(final(s)@ =~= old(s)@ + dec_text(n as nat));
    } else {
        append_dec(s, n / 10);
        append_digit(s, n % 10);
        assert(final(s)@ =~= old(s)@ + dec_text(n as nat));
    }
}

fn append_pad2(s: &mut String, n: u64)
    ensures
        final(s)@ == old(s)@ + pad2_text(n as nat),
{
    if n < 10 {
        append_digit(s, 0);
    }
    append_dec(s, n);
    assert(final(s)@ =~= old(s)@ + pad2_text(n as nat));
}

fn append_pad3(s: &mut String, n: u64)
    ensures
        final(s)@ == old(s)@ + pad3_text(n as nat),
{
    if n < 100 {
        append_digit(s, 0);
    }
    if n < 10 {
        append_digit(s, 0);
    }
    append_dec(s, n);
    assert(final(s)@ =~= old(s)@ + pad3_text(n as nat));
}

fn append_pad4(s: &mut String, n: u64)
    ensures
        final(s)@ == old(s)@ + pad4_text(n as nat),
{
    if n < 1000 {
        append_digit(s, 0);
    }
    if n < 100 {
        append_digit(s, 0);
    }
    if n < 10 {
        append_digit(s, 0);
    }
    append_dec(s, n);
    assert(final(s)@ =~= old(s)@ + pad4_text(n as nat));
}

/// Render a duration of `ms` milliseconds as `HH:MM:SS.mmm`.
pub fn format_time(ms: u64) -> (r: String)
    ensures
        r@ == time_text(ms as nat),
{
    let secs: u64 = ms / 1000;
    let mut r = String::new();
    append_pad2(&mut r, secs / 3600);
    append_digit_sep(&mut r, ':');
    append_pad2(&mut r, (secs / 60) % 60);
    append_digit_sep(&mut r, ':');
    append_pad2(&mut r, secs % 60);
    append_digit_sep(&mut r, '.');
    append_pad3(&mut r, ms % 1000);
    assert(r@ =~= time_text(ms as nat));
    r
}

/// Render wall-clock fields as `YYYY-MM-DD HH:MM`.
pub fn format_clock(year: u64, month: u64, day: u64, hour: u64, minute: u64) -> (r: String)
    ensures
        r@ == clock_text(year as nat, month as nat, day as nat, hour as nat, minute as nat),
{
    let mut r = String::new();
    append_pad4(&mut r, year);
    append_digit_sep(&mut r, '-');
    append_pad2(&mut r, month);
    append_digit_sep(&mut r, '-');
    append_pad2(&mut r, day);
    append_digit_sep(&mut r, ' ');
    append_pad2(&mut r, hour);
    append_digit_sep(&mut r, ':');
    append_pad2(&mut r, minute);
    assert(r@ =~= clock_text(
        year as nat,
        month as nat,
        day as nat,
        hour as nat,
        minute as nat,
    ));
    r
}

/// Append one of the separator characters this module uses.
fn append_digit_sep(s: &mut String, c: char)
    requires
        c == ':' || c == '.' || c == '-' || c == ' ',
    ensures
        final(s)@ == old(s)@.push(c),
{
    if c == ':' {
        proof {
            reveal_strlit(":");
        }
        s.append(":");
    } else if c == '.' {
        proof {
            reveal_strlit(".");
        }
        s.append(".");
    } else if c == '-' {
        proof {
            reveal_strlit("-");
        }
        s.append("-");
    } else {
        proof {
            reveal_strlit(" ");
        }
        s.append(" ");
    }
    assert(final(s)@ =~= old(s)@.push(c));
}

} // verus!
