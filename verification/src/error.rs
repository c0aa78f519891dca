//! The error reported for an invalid date range in a request.
use vstd::prelude::*;
use crate::text::{contains_seq, occurs_at};
use crate::timestamp::{is_utc_micros, chrono_utc_display, utc_micros_to_string};

verus! {

/// An invalid date range; `message` explains what is wrong with it.
pub struct DateRangeError {
    error: String,
}

/// The explanation for the range from `start` to `end`, where `None`
/// stands for a date that could not be read.
pub open spec fn spec_date_range_message(start: Option<i64>, end: Option<i64>) -> Seq<char> {
    let head = "Invalid date range was supplied.\n"@;
    let s1 = if start is None { "Start date is invalid;\n"@ } else { Seq::<char>::empty() };
    let s2 = if end is None { "End date is invalid;\n"@ } else { Seq::<char>::empty() };
    let s3 = match (start, end) {
        (Some(a), Some(b)) => if a > b {
            "Start date with value='"@ + chrono_utc_display(a as int)
                + "' is after\n                        end date with value='"@
                + chrono_utc_display(b as int) + "';\n"@
        } else {
            Seq::<char>::empty()
        },
        _ => Seq::<char>::empty(),
    };
    head + s1 + s2 + s3
}

/// `x` occurs in `p + x + q`.
proof fn lemma_occurs_between(p: Seq<char>, x: Seq<char>, q: Seq<char>)
    ensures
        contains_seq(p + x + q, x),
{
    assert((p + x + q).subrange(p.len() as int, (p.len() + x.len()) as int) =~= x);
    assert(occurs_at(p + x + q, x, p.len() as int));
}

/// The message says that the start date is invalid when the start could
/// not be read, that the end date is invalid when the end could not be
/// read, and that the start is after the end when both were read and it
/// is; when both were read and are in order, it is the first line alone.
pub proof fn law_date_range_message(start: Option<i64>, end: Option<i64>)
    ensures
        start is None ==> contains_seq(
            spec_date_range_message(start, end),
            "Start date is invalid;\n"@,
        ),
        end is None ==> contains_seq(spec_date_range_message(start, end), "End date is invalid;\n"@),
        (start is Some && end is Some && start->0 > end->0) ==> contains_seq(
            spec_date_range_message(start, end),
            "' is after\n                        end date with value='"@,
        ),
        (start is Some && end is Some && start->0 <= end->0) ==> spec_date_range_message(start, end)
            == "Invalid date range was supplied.\n"@,
{
    let head = "Invalid date range was supplied.\n"@;
    let s1 = if start is None { "Start date is invalid;\n"@ } else { Seq::<char>::empty() };
    let s2 = if end is None { "End date is invalid;\n"@ } else { Seq::<char>::empty() };
    let msg = spec_date_range_message(start, end);
    if start is None {
        assert(msg =~= head + "Start date is invalid;\n"@ + (s2 + Seq::<char>::empty()));
        lemma_occurs_between(head, "Start date is invalid;\n"@, s2 + Seq::<char>::empty());
    }
    if end is None {
        assert(msg =~= (head + s1) + "End date is invalid;\n"@ + Seq::<char>::empty());
        lemma_occurs_between(head + s1, "End date is invalid;\n"@, Seq::<char>::empty());
    }
    if start is Some && end is Some {
        let a = start->0;
        let b = end->0;
        if a > b {
            let pre = head + "Start date with value='"@ + chrono_utc_display(a as int);
            let mid = "' is after\n                        end date with value='"@;
            let post = chrono_utc_display(b as int) + "';\n"@;
            assert(msg =~= pre + mid + post);
            lemma_occurs_between(pre, mid, post);
        } else {
            assert(msg =~= head);
        }
    }
}

impl DateRangeError {
    pub closed spec fn spec_message(&self) -> Seq<char> {
        self.error@
    }

    /// The error for the range from `start` to `end` (microseconds since
    /// the Unix epoch), where `None` stands for a date that could not be
    /// read.
    pub fn from_range(start: Option<i64>, end: Option<i64>) -> (r: Self)
        requires
            start matches Some(a) ==> is_utc_micros(a as int),
            end matches Some(b) ==> is_utc_micros(b as int),
        ensures
            r.spec_message() == spec_date_range_message(start, end),
    {
        let mut error = String::from_str("Invalid date range was supplied.\n");
        let ghost head = error@;
        if start.is_none() {
            error.append("Start date is invalid;\n");
        }
        let ghost after1 = error@;
        if end.is_none() {
            error.append("End date is invalid;\n");
        }
        let ghost after2 = error@;
        if let (Some(a), Some(b)) = (start, end) {
            if a > b {
                let sa = utc_micros_to_string(a);
                let sb = utc_micros_to_string(b);
                error.append("Start date with value='");
                error.append(sa.as_str());
                error.append("' is after\n                        end date with value='");
                error.append(sb.as_str());
                error.append("';\n");
            }
        }
        let r = DateRangeError { error };
        assert(r.spec_message() =~= spec_date_range_message(start, end));
        r
    }

    /// The explanation, as `Display` shows it.
    pub fn message(&self) -> (r: String)
        ensures
            r@ == self.spec_message(),
    {
        self.error.clone()
    }
}

} // verus!
