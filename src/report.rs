//! The text the reporting loop repaints once per second.
use vstd::prelude::*;
use vstd::string::*;
use crate::check::{HttpCheck, healthy, url_of};

verus! {

/// The decimal digit character of `d < 10`.
pub open spec fn digit_char(d: nat) -> char {
    ((d + '0' as nat) as u8) as char
}

/// The decimal spelling of `n`, most significant digit first, no leading zeros.
pub open spec fn decimal(n: nat) -> Seq<char>
    decreases n,
{
    if n < 10 {
        seq![digit_char(n)]
    } else {
        decimal(n / 10) + seq![digit_char(n % 10)]
    }
}

/// The report line of the check at position `index` (numbered from one).
pub open spec fn status_line_of(index: nat, check: HttpCheck) -> Seq<char> {
    decimal(index + 1) + seq![')', ' '] + url_of(check.domain@, check.port@, check.path@) + if healthy(
        check.fail_count as int,
        check.healthy_threshold as int,
    ) {
        seq![' ', 'i', 's', ' ', 'h', 'e', 'a', 'l', 't', 'h', 'y']
    } else {
        seq![' ', 'i', 's', ' ', 'u', 'n', 'h', 'e', 'a', 'l', 't', 'h', 'y']
    }
}

/// The header of a report drawn at epoch second `now`.
pub open spec fn header_of(now: nat) -> Seq<char> {
    decimal(now) + seq![' ', 'C', 'h', 'e', 'c', 'k', 'i', 'n', 'g', ' ', 'h', 'e', 'a', 'l', 't', 'h']
}

fn digit_str(d: u64) -> (r: &'static str)
    requires
        d < 10,
    ensures
        r@ == seq![digit_char(d as nat)],
{
    let r = if d == 0 {
        "0"
    } else if d == 1 {
        "1"
    } else if d == 2 {
        "2"
    } else if d == 3 {
        "3"
    } else if d == 4 {
        "4"
    } else if d == 5 {
        "5"
    } else if d == 6 {
        "6"
    } else if d == 7 {
        "7"
    } else if d == 8 {
        "8"
    } else {
        "9"
    };
    proof {
        reveal_strlit("0");
        reveal_strlit("1");
        reveal_strlit("2");
        reveal_strlit("3");
        reveal_strlit("4");
        reveal_strlit("5");
        reveal_strlit("6");
        reveal_strlit("7");
        reveal_strlit("8");
        reveal_strlit("9");
        assert(r@ =~= seq![digit_char(d as nat)]);
    }
    r
}

/// Appends the decimal spelling of `n` to `s`.
pub fn push_decimal(s: &mut String, n: u64)
    ensures
        final(s)@ == old(s)@ + decimal(n as nat),
    decreases n,
{
    if n >= 10 {
        push_decimal(s, n / 10);
    }
    s.append(digit_str(n % 10));
    proof {
        if n >= 10 {
            assert(decimal(n as nat) == decimal((n / 10) as nat) + seq![digit_char((n % 10) as nat)]);
        }
    }
    assert(s@ =~= old(s)@ + decimal(n as nat));
}

/// `"{index + 1}) {url} is healthy"`, or `unhealthy`.
pub fn status_line(index: u64, check: &HttpCheck) -> (r: String)
    requires
        index < u64::MAX,
    ensures
        r@ == status_line_of(index as nat, *check),
{
    let mut line = String::new();
    push_decimal(&mut line, index + 1);
    line.append(") ");
    line.append(check.get_full_url().as_str());
    let healthy_now = check.is_healthy();
    if healthy_now {
        line.append(" is healthy");
    } else {
        line.append(" is unhealthy");
    }
    proof {
        reveal_strlit(") ");
        reveal_strlit(" is healthy");
        reveal_strlit(" is unhealthy");
    }
    assert(line@ =~= status_line_of(index as nat, *check));
    line
}

/// `"{now} Checking health"`.
pub fn header_line(now: u64) -> (r: String)
    ensures
        r@ == header_of(now as nat),
{
    let mut line = String::new();
    push_decimal(&mut line, now);
    line.append(" Checking health");
    proof {
        reveal_strlit(" Checking health");
    }
    assert(line@ =~= header_of(now as nat));
    line
}

/// One line per check, in registry order.
pub fn status_lines(checks: &Vec<HttpCheck>) -> (r: Vec<String>)
    ensures
        r@.len() == checks@.len(),
        forall|i: int| 0 <= i < checks@.len() ==> #[trigger] r@[i]@ == status_line_of(i as nat, checks@[i]),
{
    let mut out: Vec<String> = Vec::new();
    let n = checks.len();
    for i in 0..n
        invariant
            n == checks@.len(),
            out@.len() == i,
            forall|k: int| 0 <= k < i ==> #[trigger] out@[k]@ == status_line_of(k as nat, checks@[k]),
    {
        out.push(status_line(i as u64, &checks[i]));
    }
    out
}

} // verus!
