//! Join histories: the ascending sequence of calendar days on which members
//! joined a population, together with the cumulative-count series derived
//! from it.

use vstd::prelude::*;

use crate::date::{Date, ORDINAL_CAP, date_to_ordinal};

verus! {

/// Largest number of records a history may hold, so that every cumulative
/// count fits in an `i32` chart coordinate.
pub const MAX_HISTORY_LEN: usize = 0x7fffffff;

/// How many elements of `s` are at most `x`.
pub open spec fn count_le(s: Seq<i64>, x: int) -> int
    decreases s.len(),
{
    if s.len() == 0 {
        0
    } else {
        count_le(s.drop_last(), x) + if s.last() <= x {
            1int
        } else {
            0int
        }
    }
}

/// `count_le` lies between 0 and the length of the sequence.
pub proof fn lemma_count_le_bounds(s: Seq<i64>, x: int)
    ensures
        0 <= count_le(s, x) <= s.len(),
    decreases s.len(),
{
    if s.len() > 0 {
        lemma_count_le_bounds(s.drop_last(), x);
    }
}

/// The cumulative count is a non-decreasing step function of the day: a later
/// day can only have seen at least as many joins.
pub proof fn lemma_count_le_monotone(s: Seq<i64>, x1: int, x2: int)
    requires
        x1 <= x2,
    ensures
        count_le(s, x1) <= count_le(s, x2),
    decreases s.len(),
{
    if s.len() > 0 {
        lemma_count_le_monotone(s.drop_last(), x1, x2);
    }
}

/// In a well-formed history the ordinals ascend between any two positions,
/// not only between neighbours.
pub proof fn lemma_days_sorted(h: JoinHistory, i: int, j: int)
    requires
        h.wf(),
        0 <= i <= j < h.days_view().len(),
    ensures
        h.days_view()[i] <= h.days_view()[j],
    decreases j - i,
{
    if i < j {
        lemma_days_sorted(h, i, j - 1);
    }
}

/// An ordered join history.  `days` caches the day ordinal of each date.
pub struct JoinHistory {
    pub dates: Vec<Date>,
    pub days: Vec<i64>,
}

impl JoinHistory {
    /// Well-formed: every record is a valid date, ordinals are cached
    /// correctly, and the sequence ascends.
    pub open spec fn wf(self) -> bool {
        &&& self.days@.len() == self.dates@.len()
        &&& self.dates@.len() <= MAX_HISTORY_LEN
        &&& forall|i: int|
            0 <= i < self.dates@.len() ==> (#[trigger] self.dates@[i]).valid()
                && self.days@[i] == self.dates@[i].ordinal()
        &&& forall|i: int|
            0 <= i < self.days@.len() ==> 1 <= #[trigger] self.days@[i] < ORDINAL_CAP
        &&& forall|i: int|
            0 < i < self.days@.len() ==> self.days@[i - 1] <= #[trigger] self.days@[i]
    }

    /// The day ordinals of the records, in order.
    pub open spec fn days_view(self) -> Seq<i64> {
        self.days@
    }

    /// The dates of the records, in order.
    pub open spec fn dates_view(self) -> Seq<Date> {
        self.dates@
    }

    /// Builds a history from dates that arrive already sorted ascending.
    /// Returns `None` when a date is out of range, when the order descends
    /// somewhere, or when there are too many records.
    pub fn from_dates(dates: Vec<Date>) -> (r: Option<JoinHistory>)
        ensures
            r matches Some(h) ==> h.wf() && h.dates_view() == dates@,
            r is Some <==> {
                &&& dates@.len() <= MAX_HISTORY_LEN
                &&& forall|i: int| 0 <= i < dates@.len() ==> (#[trigger] dates@[i]).valid()
                &&& forall|i: int|
                    0 < i < dates@.len() ==> dates@[i - 1].ordinal() <= (
                    #[trigger] dates@[i]).ordinal()
            },
    {
        if dates.len() > MAX_HISTORY_LEN {
            return None;
        }
        let mut days: Vec<i64> = Vec::new();
        let n = dates.len();
        let mut i: usize = 0;
        while i < n
            invariant
                n == dates@.len() <= MAX_HISTORY_LEN,
                i <= n,
                days@.len() == i,
                forall|j: int|
                    0 <= j < i ==> (#[trigger] dates@[j]).valid() && days@[j]
                        == dates@[j].ordinal(),
                forall|j: int| 0 <= j < i ==> 1 <= #[trigger] days@[j] < ORDINAL_CAP,
                forall|j: int| 0 < j < i ==> days@[j - 1] <= #[trigger] days@[j],
            decreases n - i,
        {
            let dt = &dates[i];
            let in_range = dt.year >= 1 && dt.year <= 9999 && dt.month >= 1 && dt.month <= 12
                && dt.day >= 1;
            if !in_range || dt.day > crate::date::days_in_month(dt.year, dt.month) {
                return None;
            }
            let ord = date_to_ordinal(dt);
            if i > 0 {
                let prev = days[i - 1];
                if ord < prev {
                    return None;
                }
            }
            days.push(ord);
            i = i + 1;
        }
        Some(JoinHistory { dates, days })
    }

    /// Number of join records.
    pub fn len(&self) -> (r: usize)
        ensures
            r == self.days_view().len(),
    {
        self.days.len()
    }

    /// The day ordinal of the `i`-th record.
    pub fn day_at(&self, i: usize) -> (r: i64)
        requires
            i < self.days_view().len(),
        ensures
            r == self.days_view()[i as int],
    {
        self.days[i]
    }

    /// The date of the `i`-th record.
    pub fn date_at(&self, i: usize) -> (r: Date)
        requires
            self.wf(),
            i < self.dates_view().len(),
        ensures
            r == self.dates_view()[i as int],
    {
        self.dates[i]
    }

    /// The day ordinal of the earliest record.
    pub fn first_day(&self) -> (r: i64)
        requires
            self.days_view().len() > 0,
        ensures
            r == self.days_view()[0],
    {
        self.days[0]
    }

    /// The day ordinal of the latest record.
    pub fn last_day(&self) -> (r: i64)
        requires
            self.days_view().len() > 0,
        ensures
            r == self.days_view()[self.days_view().len() - 1],
    {
        self.days[self.days.len() - 1]
    }

    /// How many members had joined by the end of day `x`.
    pub fn count_through(&self, x: i64) -> (r: i32)
        requires
            self.wf(),
        ensures
            r == count_le(self.days_view(), x as int),
    {
        let n = self.days.len();
        let mut cnt: i32 = 0;
        let mut j: usize = 0;
        while j < n
            invariant
                n == self.days_view().len() <= MAX_HISTORY_LEN,
                j <= n,
                cnt == count_le(self.days_view().take(j as int), x as int),
                0 <= cnt <= j,
            decreases n - j,
        {
            proof {
                lemma_count_le_bounds(self.days_view().take(j as int), x as int);
                assert(self.days_view().take(j + 1).drop_last() =~= self.days_view().take(
                    j as int,
                ));
            }
            if self.days[j] <= x {
                cnt = cnt + 1;
            }
            j = j + 1;
        }
        proof {
            assert(self.days_view().take(n as int) =~= self.days_view());
        }
        cnt
    }

    /// The day-indexed cumulative series: entry `i` is the number of joins on
    /// or before day `start + i`, for `len` consecutive days.
    pub fn daily_counts(&self, start: i64, len: usize) -> (r: Vec<i32>)
        requires
            self.wf(),
            1 <= start,
            start + len <= crate::date::SCAN_ORDINAL_CAP + 1,
        ensures
            r@.len() == len,
            forall|i: int| 0 <= i < len ==> r@[i] == count_le(self.days_view(), start + i),
    {
        let mut out: Vec<i32> = Vec::new();
        let mut i: usize = 0;
        while i < len
            invariant
                self.wf(),
                1 <= start,
                start + len <= crate::date::SCAN_ORDINAL_CAP + 1,
                i <= len,
                out@.len() == i,
                forall|j: int| 0 <= j < i ==> out@[j] == count_le(self.days_view(), start + j),
            decreases len - i,
        {
            let c = self.count_through(start + i as i64);
            out.push(c);
            i = i + 1;
        }
        out
    }

    /// The points the regression fallback fits: each record's day ordinal
    /// paired with its 1-based rank (the cumulative member count at that
    /// record).  Returns `None` when fewer than two records exist, because no
    /// curve can be fitted through fewer than two points.
    pub fn regression_inputs(&self) -> (r: Option<(Vec<i64>, Vec<i64>)>)
        requires
            self.wf(),
        ensures
            r is Some <==> self.days_view().len() >= 2,
            r matches Some((xs, ys)) ==> {
                &&& xs@ == self.days_view()
                &&& ys@.len() == self.days_view().len()
                &&& forall|i: int| 0 <= i < ys@.len() ==> #[trigger] ys@[i] == i + 1
            },
    {
        let n = self.days.len();
        if n < 2 {
            return None;
        }
        let mut xs: Vec<i64> = Vec::new();
        let mut ys: Vec<i64> = Vec::new();
        let mut i: usize = 0;
        while i < n
            invariant
                n == self.days_view().len() <= MAX_HISTORY_LEN,
                i <= n,
                xs@.len() == i,
                ys@.len() == i,
                forall|j: int| 0 <= j < i ==> xs@[j] == self.days_view()[j],
                forall|j: int| 0 <= j < i ==> #[trigger] ys@[j] == j + 1,
            decreases n - i,
        {
            xs.push(self.days[i]);
            ys.push(i as i64 + 1);
            i = i + 1;
        }
        proof {
            assert(xs@ =~= self.days_view());
        }
        Some((xs, ys))
    }
}

} // verus!
