//! The forecast pipeline: the delegate protocol (payload out, reply in), the
//! strict delegate-then-fallback strategy order, and the fallback scan that
//! turns fitted per-day values into a predicted day.

use vstd::prelude::*;

use crate::codec::{base64_decode, base64_decoded, parse_rfc3339_utc_day, rfc3339_utc_day};
use crate::date::{Date, ORDINAL_CAP, date_rep, format_date};
use crate::history::JoinHistory;
use crate::text::dec_rep;

verus! {

/// How many days after the last join the fallback predictor searches,
/// counting the last join's own day.
pub const HORIZON_DAYS: usize = 304;

/// A produced forecast: the predicted day ordinal and the chart bytes, which
/// may be empty when the delegate sent no image.
#[derive(Debug)]
pub struct Forecast {
    pub day: i64,
    pub chart: Vec<u8>,
}

/// What the orchestrator does after consulting the delegate: either the
/// delegate's forecast stands, or the regression fallback is tried.
#[derive(Debug)]
pub enum OrchestratorStep {
    Done(Forecast),
    TryFallback,
}

/// The strict first-success strategy order: a delegate forecast is returned
/// unconditionally (even with an empty chart); only the delegate's "no
/// result" hands control to the regression fallback.
pub fn next_step(delegate: Option<Forecast>) -> (r: OrchestratorStep)
    ensures
        delegate matches Some(f) ==> r == OrchestratorStep::Done(f),
        delegate is None ==> r == OrchestratorStep::TryFallback,
{
    match delegate {
        Some(f) => OrchestratorStep::Done(f),
        None => OrchestratorStep::TryFallback,
    }
}

/// The delegate's reply, reduced to plain values: whether the helper exited
/// successfully with a well-formed reply, and the two optional fields of the
/// reply.
pub fn interpret_delegate_reply(
    success: bool,
    predicted_date: Option<String>,
    image_base64: Option<String>,
) -> (r: Option<Forecast>)
    ensures
        !success ==> r is None,
        success ==> match predicted_date {
            Option::None => r is None,
            Option::Some(s) => match rfc3339_utc_day(s@) {
                Option::None => r is None,
                Option::Some(d) => match image_base64 {
                    Option::None => r matches Some(f) && f.day == d && f.chart@ == Seq::<
                        u8,
                    >::empty(),
                    Option::Some(b) => match base64_decoded(b@) {
                        Option::None => r is None,
                        Option::Some(bytes) => r matches Some(f) && f.day == d && f.chart@
                            == bytes,
                    },
                },
            },
        },
        r matches Some(f) ==> crate::date::MIN_DATE_ORDINAL < f.day
            <= crate::date::SCAN_ORDINAL_CAP,
{
    if !success {
        return None;
    }
    let date_text = match predicted_date {
        Some(s) => s,
        None => {
            return None;
        },
    };
    let day = match parse_rfc3339_utc_day(date_text.as_str()) {
        Some(d) => d,
        None => {
            return None;
        },
    };
    match image_base64 {
        None => Some(Forecast { day, chart: Vec::new() }),
        Some(b) => {
            match base64_decode(b.as_str()) {
                Some(bytes) => Some(Forecast { day, chart: bytes }),
                None => None,
            }
        },
    }
}

/// Scans the fitted values day by day from the last observed day and returns
/// the first day whose fitted value reaches the target, or `None` when no
/// day within the horizon does.  `preds[i]` is the fitted cumulative count
/// for day `last_day + i`, rounded down, so `preds[i] >= target` exactly
/// when the fitted value reaches the integer target.
pub fn fallback_scan(last_day: i64, preds: &Vec<i64>, target: i64) -> (r: Option<i64>)
    requires
        1 <= last_day < ORDINAL_CAP,
        preds@.len() <= HORIZON_DAYS,
    ensures
        r matches Some(d) ==> {
            &&& last_day <= d < last_day + preds@.len()
            &&& preds@[d - last_day] >= target
            &&& forall|j: int| 0 <= j < d - last_day ==> preds@[j] < target
        },
        r is None <==> forall|j: int| 0 <= j < preds@.len() ==> preds@[j] < target,
{
    let n = preds.len();
    let mut i: usize = 0;
    while i < n
        invariant
            n == preds@.len() <= HORIZON_DAYS,
            1 <= last_day < ORDINAL_CAP,
            i <= n,
            forall|j: int| 0 <= j < i ==> preds@[j] < target,
        decreases n - i,
    {
        if preds[i] >= target {
            return Some(last_day + i as i64);
        }
        i = i + 1;
    }
    None
}

/// Signed number of days from `from_day` to `to_day`.
pub fn days_between(from_day: i64, to_day: i64) -> (r: i64)
    requires
        -crate::date::SCAN_ORDINAL_CAP <= from_day <= crate::date::SCAN_ORDINAL_CAP,
        -crate::date::SCAN_ORDINAL_CAP <= to_day <= crate::date::SCAN_ORDINAL_CAP,
    ensures
        r == to_day - from_day,
{
    to_day - from_day
}

/// The JSON fragment listing the history's dates: each date quoted as
/// `"YYYY-MM-DD"`, joined by commas.
pub open spec fn dates_json_spec(dates: Seq<Date>) -> Seq<char>
    decreases dates.len(),
{
    if dates.len() == 0 {
        Seq::<char>::empty()
    } else if dates.len() == 1 {
        seq!['"'] + date_rep(dates[0].year as int, dates[0].month as int, dates[0].day as int)
            + seq!['"']
    } else {
        dates_json_spec(dates.drop_last()) + seq![',', '"'] + date_rep(
            dates.last().year as int,
            dates.last().month as int,
            dates.last().day as int,
        ) + seq!['"']
    }
}

/// The full delegate payload: `{"dates":[...],"target":N}`.
pub open spec fn payload_spec(dates: Seq<Date>, target: int) -> Seq<char> {
    "{\"dates\":["@ + dates_json_spec(dates) + "],\"target\":"@ + dec_rep(target as nat) + "}"@
}

/// Builds the message written to the delegate helper's input: the history's
/// dates as ISO calendar-date strings, ascending, and the target count.
pub fn delegate_payload(h: &JoinHistory, target: u64) -> (r: String)
    requires
        h.wf(),
    ensures
        r@ == payload_spec(h.dates_view(), target as int),
{
    proof {
        reveal_strlit("{\"dates\":[");
        reveal_strlit("],\"target\":");
        reveal_strlit("}");
        reveal_strlit("\"");
        reveal_strlit(",\"");
    }
    let mut out = String::from_str("{\"dates\":[");
    let n = h.len();
    let mut i: usize = 0;
    while i < n
        invariant
            h.wf(),
            n == h.dates_view().len(),
            i <= n,
            out@ == "{\"dates\":["@ + dates_json_spec(h.dates_view().take(i as int)),
        decreases n - i,
    {
        proof {
            reveal_strlit("{\"dates\":[");
            reveal_strlit("\"");
            reveal_strlit(",\"");
            assert(h.dates_view().take(i + 1).drop_last() =~= h.dates_view().take(i as int));
        }
        if i == 0 {
            out.append("\"");
        } else {
            out.append(",\"");
        }
        let dt = h.date_at(i);
        out.append(format_date(&dt).as_str());
        out.append("\"");
        proof {
            let pre = h.dates_view().take(i + 1);
            if i == 0 {
                assert(pre.len() == 1);
                assert(pre[0] == h.dates_view()[0]);
                assert(out@ =~= "{\"dates\":["@ + dates_json_spec(pre));
            } else {
                assert(pre.last() == h.dates_view()[i as int]);
                assert(out@ =~= "{\"dates\":["@ + dates_json_spec(pre));
            }
        }
        i = i + 1;
    }
    proof {
        assert(h.dates_view().take(n as int) =~= h.dates_view());
    }
    out.append("],\"target\":");
    out.append(crate::text::u64_string(target).as_str());
    out.append("}");
    proof {
        assert(out@ =~= payload_spec(h.dates_view(), target as int));
    }
    out
}

} // verus!
