//! Small string helpers: decimal formatting of integers and a primitive to
//! append single characters to a `String`.

use vstd::prelude::*;

verus! {

/// The character for one decimal digit.
pub open spec fn digit_char(d: int) -> char {
    if d == 0 {
        '0'
    } else if d == 1 {
        '1'
    } else if d == 2 {
        '2'
    } else if d == 3 {
        '3'
    } else if d == 4 {
        '4'
    } else if d == 5 {
        '5'
    } else if d == 6 {
        '6'
    } else if d == 7 {
        '7'
    } else if d == 8 {
        '8'
    } else {
        '9'
    }
}

/// The decimal digits of `n`, most significant first, with no leading zeros
/// (a single `'0'` for zero).
pub open spec fn decimal_digits(n: nat) -> Seq<char>
    decreases n,
{
    if n < 10 {
        seq![digit_char(n as int)]
    } else {
        decimal_digits(n / 10) + seq![digit_char((n % 10) as int)]
    }
}

/// Relies on `String::push` of std: appends exactly the given character.
#[verifier::external_body]
pub(crate) fn push_char(s: &mut String, c: char)
    ensures
        final(s)@ == old(s)@.push(c),
{
    s.push(c);
}

fn digit_to_char(d: u64) -> (c: char)
    requires
        d < 10,
    ensures
        c == digit_char(d as int),
{
    if d == 0 {
        '0'
    } else if d == 1 {
        '1'
    } else if d == 2 {
        '2'
    } else if d == 3 {
        '3'
    } else if d == 4 {
        '4'
    } else if d == 5 {
        '5'
    } else if d == 6 {
        '6'
    } else if d == 7 {
        '7'
    } else if d == 8 {
        '8'
    } else {
        '9'
    }
}

/// Renders `n` in decimal.
pub fn u64_to_string(n: u64) -> (s: String)
    ensures
        s@ == decimal_digits(n as nat),
{
    let mut rev: Vec<char> = Vec::new();
    let mut m: u64 = n;
    if m == 0 {
        let mut s = String::new();
        push_char(&mut s, '0');
        proof {
            assert(s@ =~= decimal_digits(0));
        }
        return s;
    }
    while m > 0
        invariant
            m <= n,
            m > 0 ==> decimal_digits(n as nat) =~= decimal_digits(m as nat) + rev@.reverse(),
            m == 0 ==> decimal_digits(n as nat) =~= rev@.reverse(),
        decreases m,
    {
        let d = m % 10;
        proof {
            let ghost old_rev = rev@;
            assert(old_rev.push(digit_char(d as int)).reverse() =~= seq![
                digit_char(d as int),
            ] + old_rev.reverse());
            if m >= 10 {
                assert(decimal_digits(m as nat) == decimal_digits((m as nat) / 10) + seq![
                    digit_char(((m as nat) % 10) as int),
                ]);
            }
        }
        rev.push(digit_to_char(d));
        m = m / 10;
        proof {
            assert((m as nat) == 0 ==> decimal_digits(n as nat) =~= rev@.reverse());
        }
    }
    let mut s = String::new();
    let len = rev.len();
    let mut i: usize = 0;
    while i < len
        invariant
            len == rev@.len(),
            i <= len,
            s@ =~= rev@.reverse().take(i as int),
        decreases len - i,
    {
        proof {
            assert(rev@.reverse()[i as int] == rev@[len - 1 - i]);
            assert(rev@.reverse().take(i as int + 1) =~= rev@.reverse().take(i as int).push(
                rev@.reverse()[i as int],
            ));
        }
        let c = rev[len - 1 - i];
        push_char(&mut s, c);
        i = i + 1;
    }
    proof {
        assert(rev@.reverse().take(len as int) =~= rev@.reverse());
    }
    s
}

} // verus!
