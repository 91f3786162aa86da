use vstd::prelude::*;

verus! {

/// The character of a decimal digit `d < 10`.
pub open spec fn digit_char(d: nat) -> char {
    if d == 0 { '0' } else if d == 1 { '1' } else if d == 2 { '2' } else if d == 3 { '3' }
    else if d == 4 { '4' } else if d == 5 { '5' } else if d == 6 { '6' } else if d == 7 { '7' }
    else if d == 8 { '8' } else { '9' }
}

/// The decimal digits of `n`, without leading zeros.
pub open spec fn decimal_spec(n: nat) -> Seq<char>
    decreases n,
{
    if n < 10 {
        seq![digit_char(n)]
    } else {
        decimal_spec(n / 10) + seq![digit_char(n % 10)]
    }
}

/// The decimal text of `n`, with a leading minus sign when negative.
pub open spec fn signed_decimal_spec(n: int) -> Seq<char> {
    if n < 0 {
        seq!['-'] + decimal_spec((-n) as nat)
    } else {
        decimal_spec(n as nat)
    }
}

/// How a delete-by-query job is submitted.
#[derive(Clone, Debug)]
pub struct SubmitOptions {
    /// The index pattern the job is scoped to.
    pub index: String,
    /// Cap on the remote's requests per second.
    pub requests_per_second: Option<i32>,
    /// Scroll (batch) size hint.
    pub scroll_size: Option<u64>,
    /// Abort on version conflicts rather than proceed past them.
    pub abort_on_conflict: bool,
}

/// The submission path and query string.
pub open spec fn submit_path_spec(o: SubmitOptions) -> Seq<char> {
    "/"@ + o.index@ + "/_delete_by_query?wait_for_completion=false"@
        + (if o.abort_on_conflict { "&conflicts=abort"@ } else { "&conflicts=proceed"@ })
        + match o.requests_per_second {
            Some(n) => "&requests_per_second="@ + signed_decimal_spec(n as int),
            None => Seq::<char>::empty(),
        }
        + match o.scroll_size {
            Some(n) => "&scroll_size="@ + decimal_spec(n as nat),
            None => Seq::<char>::empty(),
        }
}

fn digit_str(d: u64) -> (r: &'static str)
    requires
        d < 10,
    ensures
        r@ == seq![digit_char(d as nat)],
{
    proof {
        reveal_strlit("0");
        reveal_strlit("1");
        reveal_strlit("2");
        reveal_strlit("3");
        reveal_strlit("4");
        reveal_strlit("5");
        reveal_strlit("6");
        reveal_strlit("7");
        reveal_strlit("8");
        reveal_strlit("9");
    }
    if d == 0 { "0" } else if d == 1 { "1" } else if d == 2 { "2" } else if d == 3 { "3" }
    else if d == 4 { "4" } else if d == 5 { "5" } else if d == 6 { "6" } else if d == 7 { "7" }
    else if d == 8 { "8" } else { "9" }
}

/// The decimal text of `n`.
pub fn decimal(n: u64) -> (r: String)
    ensures
        r@ == decimal_spec(n as nat),
    decreases n,
{
    if n < 10 {
        String::from_str(digit_str(n))
    } else {
        let mut s = decimal(n / 10);
        s.append(digit_str(n % 10));
        s
    }
}

fn signed_decimal(n: i32) -> (r: String)
    ensures
        r@ == signed_decimal_spec(n as int),
{
    if n < 0 {
        proof {
            reveal_strlit("-");
        }
        let mut s = String::from_str("-");
        let m: i64 = -(n as i64);
        let digits = decimal(m as u64);
        s.append(digits.as_str());
        s
    } else {
        decimal(n as u64)
    }
}

/// The path and query string that submit a delete-by-query job without
/// waiting for its completion.
pub fn submit_path(o: &SubmitOptions) -> (r: String)
    ensures
        r@ == submit_path_spec(*o),
{
    let mut s = String::from_str("/");
    s.append(o.index.as_str());
    s.append("/_delete_by_query?wait_for_completion=false");
    if o.abort_on_conflict {
        s.append("&conflicts=abort");
    } else {
        s.append("&conflicts=proceed");
    }
    match o.requests_per_second {
        Some(n) => {
            s.append("&requests_per_second=");
            let t = signed_decimal(n);
            s.append(t.as_str());
        },
        None => {},
    }
    match o.scroll_size {
        Some(n) => {
            s.append("&scroll_size=");
            let t = decimal(n);
            s.append(t.as_str());
        },
        None => {},
    }
    assert(s@ =~= submit_path_spec(*o));
    s
}

/// The path that polls job `job`.
pub fn poll_path(job: &str) -> (r: String)
    ensures
        r@ == "/_tasks/"@ + job@,
{
    let mut s = String::from_str("/_tasks/");
    s.append(job);
    s
}

/// The path that cancels job `job`.
pub fn cancel_path(job: &str) -> (r: String)
    ensures
        r@ == "/_tasks/"@ + job@ + "/_cancel"@,
{
    let mut s = String::from_str("/_tasks/");
    s.append(job);
    s.append("/_cancel");
    s
}

} // verus!
