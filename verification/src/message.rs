//! The warning message sent to administrators, built entirely from
//! verified code: a decimal rendering of the day count spliced into a
//! fixed template.

use vstd::prelude::*;
use vstd::string::StringExecFns;

verus! {

/// The decimal digit character for `d`, for `d < 10`.
pub open spec fn digit_char(d: nat) -> char {
    if d == 0 {
        '0'
    } else if d == 1 {
        '1'
    } else if d == 2 {
        '2'
    } else if d == 3 {
        '3'
    } else if d == 4 {
        '4'
    } else if d == 5 {
        '5'
    } else if d == 6 {
        '6'
    } else if d == 7 {
        '7'
    } else if d == 8 {
        '8'
    } else {
        '9'
    }
}

/// The decimal digits of `n`, most significant first, with no sign and
/// no leading zeros (a single `'0'` for zero).
pub open spec fn dec_digits(n: nat) -> Seq<char>
    decreases n,
{
    if n < 10 {
        seq![digit_char(n)]
    } else {
        dec_digits(n / 10) + seq![digit_char(n % 10)]
    }
}

/// The decimal rendering of a signed integer: a leading `'-'` for a
/// negative value, then the digits of its magnitude.
pub open spec fn dec_int(n: int) -> Seq<char> {
    if n < 0 {
        "-"@ + dec_digits((-n) as nat)
    } else {
        dec_digits(n as nat)
    }
}

/// The full text of the warning sent when the license expires in `d`
/// days: a fixed template around the decimal rendering of `d`.
pub open spec fn expiring_message(d: int) -> Seq<char> {
    "Your license will "@ + "expire in "@ + dec_int(d) + " days"@
        + ".\n\nTo ensure uninterrupted access to Tabby and to continue enjoying all the premium features, please renew your license before it expires.\n\nIf you have any questions or need assistance with the renewal process, please don't hesitate to contact our support team at support@tabbyml.com.\n"@
}

/// `pattern` occurs contiguously somewhere in `text`.
pub open spec fn contains_substring(text: Seq<char>, pattern: Seq<char>) -> bool {
    exists|i: int|
        0 <= i && i + pattern.len() <= text.len() && #[trigger] text.subrange(
            i,
            i + pattern.len() as int,
        ) == pattern
}

/// The warning for a license expiring in `d` days, for any `d` in the
/// warning window, names the day count: it contains the substring
/// `expire in {d} days`.
pub proof fn lemma_message_names_days(d: int)
    requires
        0 < d < 7,
    ensures
        contains_substring(expiring_message(d), "expire in "@ + dec_int(d) + " days"@),
{
    reveal_strlit("Your license will ");
    reveal_strlit("expire in ");
    reveal_strlit(" days");
    let text = expiring_message(d);
    let pattern = "expire in "@ + dec_int(d) + " days"@;
    assert(dec_int(d).len() == 1);
    assert(text.subrange(18, 18 + pattern.len() as int) =~= pattern);
}

fn digit_to_str(d: u64) -> (r: &'static str)
    requires
        d < 10,
    ensures
        r@ == seq![digit_char(d as nat)],
{
    proof {
        reveal_strlit("0");
        reveal_strlit("1");
        reveal_strlit("2");
        reveal_strlit("3");
        reveal_strlit("4");
        reveal_strlit("5");
        reveal_strlit("6");
        reveal_strlit("7");
        reveal_strlit("8");
        reveal_strlit("9");
    }
    let r = match d {
        0 => "0",
        1 => "1",
        2 => "2",
        3 => "3",
        4 => "4",
        5 => "5",
        6 => "6",
        7 => "7",
        8 => "8",
        _ => "9",
    };
    proof {
        assert(r@ =~= seq![digit_char(d as nat)]);
    }
    r
}

/// The decimal digits of `n`, as a fresh string.
pub fn u64_to_dec_string(n: u64) -> (r: String)
    ensures
        r@ == dec_digits(n as nat),
    decreases n,
{
    if n < 10 {
        digit_to_str(n).to_owned()
    } else {
        let mut s = u64_to_dec_string(n / 10);
        s.append(digit_to_str(n % 10));
        s
    }
}

/// The decimal rendering of `n`, sign included, as a fresh string.
pub fn i64_to_dec_string(n: i64) -> (r: String)
    ensures
        r@ == dec_int(n as int),
{
    if n >= 0 {
        u64_to_dec_string(n as u64)
    } else {
        let magnitude: u64 = ((-(n + 1)) as u64) + 1;
        proof {
            assert(magnitude as int == -(n as int));
        }
        let mut s = "-".to_owned();
        s.append(u64_to_dec_string(magnitude).as_str());
        s
    }
}

/// Builds the expiration warning for a license that expires in
/// `expire_in_days` days, following the fixed template exactly.
pub fn make_expring_message(expire_in_days: i64) -> (r: String)
    ensures
        r@ == expiring_message(expire_in_days as int),
{
    let mut message = "Your license will ".to_owned();
    message.append("expire in ");
    message.append(i64_to_dec_string(expire_in_days).as_str());
    message.append(" days");
    message.append(
        ".\n\nTo ensure uninterrupted access to Tabby and to continue enjoying all the premium features, please renew your license before it expires.\n\nIf you have any questions or need assistance with the renewal process, please don't hesitate to contact our support team at support@tabbyml.com.\n",
    );
    message
}

} // verus!
