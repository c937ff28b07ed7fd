//! The transcription log: entries, identifiers, day grouping, ordering
//! and deletion.  Persisting the entries to disk is host work; the
//! store's logic is verified here, over an in-memory sequence of
//! entries.

use crate::text::{hex_rep, lemma_hex_rep_nonempty, fmt_u64_hex, fmt_u64_padded, padded_dec_rep, str_eq};
use chrono::Datelike;
use vstd::prelude::*;
use vstd::seq_lib::lemma_multiset_commutative;

verus! {

/// The UTC calendar date (year, month, day) of a moment given as
/// milliseconds since the Unix epoch.  The calendar computation is
/// chrono's; it depends on the timestamp alone.
pub uninterp spec fn utc_civil_of(millis: u64) -> (u32, u32, u32);

/// Relies on chrono's `DateTime::from_timestamp_millis` and `Datelike`:
/// the UTC calendar date of a timestamp is a function of the timestamp
/// alone.  A timestamp outside chrono's range comes back as the zero
/// date.
#[verifier::external_body]
fn civil_from_millis(millis: u64) -> (r: (u32, u32, u32))
    ensures
        r == utc_civil_of(millis),
{
    match chrono::DateTime::<chrono::Utc>::from_timestamp_millis(millis as i64) {
        Some(dt) => (dt.year() as u32, dt.month(), dt.day()),
        None => (0, 0, 0),
    }
}

/// Relies on std's `SystemTime::now`: the wall clock in milliseconds
/// since the Unix epoch (zero if the clock reads before the epoch);
/// nothing is promised of the value.
#[verifier::external_body]
fn now_millis() -> u64 {
    match std::time::SystemTime::now().duration_since(std::time::UNIX_EPOCH) {
        Ok(d) => d.as_millis() as u64,
        Err(_) => 0,
    }
}

/// A single transcription log entry.
pub struct LogEntry {
    /// Unique ID for the entry.
    pub id: String,
    /// When the transcription was made, in milliseconds since the Unix
    /// epoch.
    pub timestamp_millis: u64,
    /// Raw transcription result.
    pub raw_text: String,
    /// Refined text (if refinement was enabled).
    pub refined_text: Option<String>,
    /// Whether refinement was used.
    pub llm_used: bool,
    /// Prompt preset used (if refinement was enabled).
    pub prompt_preset: Option<String>,
}

impl Clone for LogEntry {
    /// An exact copy of the entry.
    fn clone(&self) -> (r: Self)
        ensures
            r == *self,
    {
        Self {
            id: self.id.clone(),
            timestamp_millis: self.timestamp_millis,
            raw_text: self.raw_text.clone(),
            refined_text: match &self.refined_text {
                Some(t) => Some(t.clone()),
                None => None,
            },
            llm_used: self.llm_used,
            prompt_preset: match &self.prompt_preset {
                Some(t) => Some(t.clone()),
                None => None,
            },
        }
    }
}

/// Whether an entry falls on the given UTC calendar day.
pub open spec fn spec_on_day(e: LogEntry, year: int, month: int, day: int) -> bool {
    let (cy, cm, cd) = utc_civil_of(e.timestamp_millis);
    cy == year && cm == month && cd == day
}

/// Calendar order on (year, month, day) triples.
pub open spec fn spec_day_le(a: (u32, u32, u32), b: (u32, u32, u32)) -> bool {
    a.0 < b.0 || (a.0 == b.0 && (a.1 < b.1 || (a.1 == b.1 && a.2 <= b.2)))
}

/// Strictly later in the calendar.
pub open spec fn spec_day_after(a: (u32, u32, u32), b: (u32, u32, u32)) -> bool {
    spec_day_le(b, a) && a != b
}

/// Days ordered newest first.
pub open spec fn spec_days_sorted_desc(s: Seq<(u32, u32, u32)>) -> bool {
    forall|i: int, j: int| 0 <= i < j < s.len() ==> spec_day_le(s[j], s[i])
}

/// Whether day `a` is strictly after day `b` in the calendar.
fn day_after(a: (u32, u32, u32), b: (u32, u32, u32)) -> (r: bool)
    ensures
        r == spec_day_after(a, b),
{
    if a.0 != b.0 {
        a.0 > b.0
    } else if a.1 != b.1 {
        a.1 > b.1
    } else {
        a.2 > b.2
    }
}

/// Entries ordered newest first.
pub open spec fn spec_sorted_desc(s: Seq<LogEntry>) -> bool {
    forall|i: int, j: int|
        0 <= i < j < s.len() ==> s[i].timestamp_millis >= s[j].timestamp_millis
}

/// How many days the given month has, in the proleptic Gregorian
/// calendar.
pub open spec fn spec_days_in_month(year: int, month: int) -> int {
    if month == 4 || month == 6 || month == 9 || month == 11 {
        30
    } else if month == 2 {
        if spec_is_leap_year(year) {
            29
        } else {
            28
        }
    } else {
        31
    }
}

/// Whether the year is a Gregorian leap year.  Divisibility does not
/// depend on sign, so the year's magnitude decides.
pub open spec fn spec_is_leap_year(year: int) -> bool {
    let a = if year >= 0 {
        year
    } else {
        -year
    };
    (a % 4 == 0 && a % 100 != 0) || a % 400 == 0
}

/// Whether year, month and day name a real calendar date.
pub open spec fn spec_valid_date(year: int, month: int, day: int) -> bool {
    1 <= month <= 12 && 1 <= day <= spec_days_in_month(year, month)
}

/// Whether year, month and day name a real calendar date.
pub fn valid_date(year: i32, month: u32, day: u32) -> (r: bool)
    ensures
        r == spec_valid_date(year as int, month as int, day as int),
{
    if month < 1 || month > 12 || day < 1 {
        return false;
    }
    let a: i64 = if year >= 0 {
        year as i64
    } else {
        -(year as i64)
    };
    let leap: bool = (a % 4 == 0 && a % 100 != 0) || a % 400 == 0;
    let max_day: u32 = if month == 4 || month == 6 || month == 9 || month == 11 {
        30
    } else if month == 2 {
        if leap {
            29
        } else {
            28
        }
    } else {
        31
    };
    day <= max_day
}

/// The `YYYY-MM-DD` key of a calendar day: the year padded to four
/// digits, month and day to two.
pub open spec fn spec_date_key(year: nat, month: nat, day: nat) -> Seq<char> {
    padded_dec_rep(year, 4) + "-"@ + padded_dec_rep(month, 2) + "-"@ + padded_dec_rep(day, 2)
}

/// Format a calendar day as its `YYYY-MM-DD` key.
pub fn format_date_key(year: u32, month: u32, day: u32) -> (r: String)
    ensures
        r@ == spec_date_key(year as nat, month as nat, day as nat),
{
    let mut s = fmt_u64_padded(year as u64, 4);
    s.append("-");
    s.append(fmt_u64_padded(month as u64, 2).as_str());
    s.append("-");
    s.append(fmt_u64_padded(day as u64, 2).as_str());
    proof {
        assert(s@ =~= spec_date_key(year as nat, month as nat, day as nat));
    }
    s
}

/// Log manager for storing and retrieving transcription logs.
pub struct LogManager {
    /// Every entry, oldest first in insertion order.
    pub entries: Vec<LogEntry>,
}

impl LogManager {
    /// An empty log store.
    pub fn new() -> (r: Result<LogManager, String>)
        ensures
            r matches Ok(m) && m.entries@ == Seq::<LogEntry>::empty(),
    {
        Ok(LogManager { entries: Vec::new() })
    }

    /// Generate a unique ID for a log entry: the wall clock in
    /// milliseconds, rendered in hexadecimal.
    pub fn generate_id() -> (r: String)
        ensures
            exists|n: u64| r@ == hex_rep(n as nat),
            r@.len() >= 1,
    {
        let n = now_millis();
        let r = fmt_u64_hex(n);
        proof {
            lemma_hex_rep_nonempty(n as nat);
        }
        r
    }

    /// Add a new entry, stamped with the wall clock and an ID derived
    /// from the same moment.
    pub fn add_entry(
        &mut self,
        raw_text: String,
        refined_text: Option<String>,
        llm_used: bool,
        prompt_preset: Option<String>,
    ) -> (r: Result<LogEntry, String>)
        ensures
            r matches Ok(e) ==> {
                &&& final(self).entries@ == old(self).entries@.push(e)
                &&& e.raw_text@ == raw_text@
                &&& e.refined_text == refined_text
                &&& e.llm_used == llm_used
                &&& e.prompt_preset == prompt_preset
                &&& exists|n: u64|
                    e.id@ == hex_rep(n as nat) && e.timestamp_millis == n
            },
            r is Ok,
    {
        let now = now_millis();
        let entry = LogEntry {
            id: fmt_u64_hex(now),
            timestamp_millis: now,
            raw_text,
            refined_text,
            llm_used,
            prompt_preset,
        };
        let copy = entry.clone();
        self.entries.push(entry);
        Ok(copy)
    }

    /// Every entry made on the given UTC calendar day, in insertion
    /// order; an invalid date has no entries.
    pub fn get_logs_for_date(&self, year: i32, month: u32, day: u32) -> (r: Vec<LogEntry>)
        ensures
            !spec_valid_date(year as int, month as int, day as int) ==> r@ == Seq::<
                LogEntry,
            >::empty(),
            spec_valid_date(year as int, month as int, day as int) ==> r@ == self.entries@.filter(
                |e: LogEntry| spec_on_day(e, year as int, month as int, day as int),
            ),
    {
        let mut out: Vec<LogEntry> = Vec::new();
        if !valid_date(year, month, day) {
            return out;
        }
        let ghost pred = |e: LogEntry| spec_on_day(e, year as int, month as int, day as int);
        proof {
            reveal(Seq::filter);
            assert(self.entries@.take(0).filter(pred) =~= Seq::<LogEntry>::empty());
        }
        let n: usize = self.entries.len();
        let mut i: usize = 0;
        while i < n
            invariant
                i <= n,
                n == self.entries@.len(),
                pred == (|e: LogEntry| spec_on_day(e, year as int, month as int, day as int)),
                out@ == self.entries@.take(i as int).filter(pred),
            decreases n - i,
        {
            let e = &self.entries[i];
            let (cy, cm, cd) = civil_from_millis(e.timestamp_millis);
            let matches_day: bool = (cy as i64 == year as i64) && (cm == month) && (cd == day);
            proof {
                reveal(Seq::filter);
                let t1 = self.entries@.take(i + 1);
                assert(t1.drop_last() =~= self.entries@.take(i as int));
                assert(t1.last() == self.entries@[i as int]);
                assert(matches_day == pred(self.entries@[i as int]));
            }
            if matches_day {
                out.push(e.clone());
            }
            i = i + 1;
        }
        proof {
            assert(self.entries@.take(n as int) =~= self.entries@);
        }
        out
    }

    /// The newest `limit` entries over all days, newest first.
    pub fn get_recent_logs(&self, limit: usize) -> (r: Vec<LogEntry>)
        ensures
            spec_sorted_desc(r@),
            r@.len() == vstd::math::min(limit as int, self.entries@.len() as int),
            exists|s: Seq<LogEntry>|
                #![auto]
                s.to_multiset() == self.entries@.to_multiset() && spec_sorted_desc(s) && r@
                    == s.take(r@.len() as int),
    {
        let mut sorted: Vec<LogEntry> = Vec::new();
        let n: usize = self.entries.len();
        let mut i: usize = 0;
        proof {
            assert(self.entries@.take(0) =~= Seq::<LogEntry>::empty());
            assert(Seq::<LogEntry>::empty().to_multiset() =~= sorted@.to_multiset());
        }
        while i < n
            invariant
                i <= n,
                n == self.entries@.len(),
                sorted@.len() == i,
                spec_sorted_desc(sorted@),
                sorted@.to_multiset() == self.entries@.take(i as int).to_multiset(),
            decreases n - i,
        {
            let e = self.entries[i].clone();
            let mut idx: usize = 0;
            while idx < sorted.len() && sorted[idx].timestamp_millis >= e.timestamp_millis
                invariant
                    idx <= sorted@.len(),
                    forall|k: int|
                        0 <= k < idx ==> sorted@[k].timestamp_millis >= e.timestamp_millis,
                decreases sorted@.len() - idx,
            {
                idx = idx + 1;
            }
            let ghost s0 = sorted@;
            sorted.insert(idx, e);
            proof {
                assert(sorted@ =~= s0.take(idx as int) + (seq![e] + s0.skip(idx as int)));
                lemma_multiset_commutative(s0.take(idx as int), seq![e] + s0.skip(idx as int));
                lemma_multiset_commutative(seq![e], s0.skip(idx as int));
                lemma_multiset_commutative(s0.take(idx as int), s0.skip(idx as int));
                assert(s0.take(idx as int) + s0.skip(idx as int) =~= s0);
                s0.to_multiset_ensures();
                Seq::<LogEntry>::empty().to_multiset_ensures();
                assert(seq![e] =~= Seq::<LogEntry>::empty().push(e));
                let t1 = self.entries@.take(i + 1);
                assert(t1 =~= self.entries@.take(i as int).push(self.entries@[i as int]));
                self.entries@.take(i as int).to_multiset_ensures();
                assert(sorted@.to_multiset() =~= t1.to_multiset());
                assert forall|a: int, b: int|
                    0 <= a < b < sorted@.len() implies sorted@[a].timestamp_millis
                    >= sorted@[b].timestamp_millis by {
                    if b < idx {
                        assert(sorted@[a] == s0[a] && sorted@[b] == s0[b]);
                    } else if b == idx {
                        assert(sorted@[a] == s0[a] && sorted@[b] == e);
                    } else if a < idx {
                        assert(sorted@[a] == s0[a] && sorted@[b] == s0[b - 1]);
                        assert(a <= b - 1 < s0.len());
                    } else if a == idx {
                        assert(sorted@[a] == e && sorted@[b] == s0[b - 1]);
                        assert(idx <= b - 1 < s0.len());
                        assert(s0[idx as int].timestamp_millis < e.timestamp_millis);
                        assert(s0[b - 1].timestamp_millis <= s0[idx as int].timestamp_millis);
                    } else {
                        assert(sorted@[a] == s0[a - 1] && sorted@[b] == s0[b - 1]);
                    }
                }
            }
            i = i + 1;
        }
        proof {
            assert(self.entries@.take(n as int) =~= self.entries@);
        }
        let ghost full = sorted@;
        sorted.truncate(limit);
        proof {
            assert(sorted@ =~= full.take(sorted@.len() as int));
        }
        sorted
    }

    /// Delete the entries with the given ID; whether any entry was
    /// deleted.
    pub fn delete_entry(&mut self, id: &str) -> (r: Result<bool, String>)
        ensures
            final(self).entries@ == old(self).entries@.filter(|e: LogEntry| e.id@ != id@),
            r == Ok::<bool, String>(
                exists|j: int|
                    0 <= j < old(self).entries@.len() && old(self).entries@[j].id@ == id@,
            ),
    {
        let ghost pred = |e: LogEntry| e.id@ != id@;
        let mut kept: Vec<LogEntry> = Vec::new();
        let mut found: bool = false;
        proof {
            reveal(Seq::filter);
            assert(self.entries@.take(0).filter(pred) =~= Seq::<LogEntry>::empty());
        }
        let n: usize = self.entries.len();
        let mut i: usize = 0;
        while i < n
            invariant
                i <= n,
                n == self.entries@.len(),
                pred == (|e: LogEntry| e.id@ != id@),
                kept@ == self.entries@.take(i as int).filter(pred),
                found == exists|j: int| 0 <= j < i && self.entries@[j].id@ == id@,
            decreases n - i,
        {
            let e = &self.entries[i];
            let same = str_eq(e.id.as_str(), id);
            proof {
                reveal(Seq::filter);
                let t1 = self.entries@.take(i + 1);
                assert(t1.drop_last() =~= self.entries@.take(i as int));
                assert(t1.last() == self.entries@[i as int]);
            }
            if same {
                found = true;
                proof {
                    assert(self.entries@[i as int].id@ == id@);
                }
            } else {
                kept.push(e.clone());
            }
            i = i + 1;
        }
        proof {
            assert(self.entries@.take(n as int) =~= self.entries@);
        }
        self.entries = kept;
        Ok(found)
    }

    /// The distinct UTC calendar days that have entries, newest day
    /// first, each as its `YYYY-MM-DD` key.
    pub fn get_available_dates(&self) -> (r: Vec<String>)
        ensures
            exists|ds: Seq<(u32, u32, u32)>|
                #![auto]
                {
                    &&& ds.no_duplicates()
                    &&& forall|t: (u32, u32, u32)|
                        ds.contains(t) <==> exists|j: int|
                            0 <= j < self.entries@.len() && utc_civil_of(
                                self.entries@[j].timestamp_millis,
                            ) == t
                    &&& spec_days_sorted_desc(ds)
                    &&& r@.len() == ds.len()
                    &&& forall|i: int|
                        0 <= i < ds.len() ==> r@[i]@ == spec_date_key(
                            ds[i].0 as nat,
                            ds[i].1 as nat,
                            ds[i].2 as nat,
                        )
                },
    {
        let mut days: Vec<(u32, u32, u32)> = Vec::new();
        let n: usize = self.entries.len();
        let mut i: usize = 0;
        while i < n
            invariant
                i <= n,
                n == self.entries@.len(),
                days@.no_duplicates(),
                spec_days_sorted_desc(days@),
                forall|t: (u32, u32, u32)|
                    days@.contains(t) <==> exists|j: int|
                        0 <= j < i && utc_civil_of(self.entries@[j].timestamp_millis) == t,
            decreases n - i,
        {
            let d = civil_from_millis(self.entries[i].timestamp_millis);
            let mut idx: usize = 0;
            while idx < days.len() && day_after(days[idx], d)
                invariant
                    idx <= days@.len(),
                    forall|k: int| 0 <= k < idx ==> spec_day_after(days@[k], d),
                decreases days@.len() - idx,
            {
                idx = idx + 1;
            }
            let already_there: bool = if idx < days.len() {
                let at = days[idx];
                at.0 == d.0 && at.1 == d.1 && at.2 == d.2
            } else {
                false
            };
            proof {
                if already_there {
                    assert(days@[idx as int] == d);
                    assert(days@.contains(d));
                } else if days@.contains(d) {
                    let w = choose|w: int| 0 <= w < days@.len() && days@[w] == d;
                    if w < idx {
                        assert(spec_day_after(days@[w], d));
                        assert(false);
                    } else {
                        assert(spec_day_le(days@[w], days@[idx as int]));
                        assert(!spec_day_after(days@[idx as int], d));
                        assert(days@[idx as int] == d || spec_day_after(d, days@[idx as int]));
                        assert(spec_day_le(d, days@[idx as int]) && spec_day_le(
                            days@[idx as int],
                            d,
                        ));
                        assert(days@[idx as int] == d);
                        assert(false);
                    }
                }
            }
            let ghost s0 = days@;
            if !already_there {
                days.insert(idx, d);
                proof {
                    assert(days@ =~= s0.take(idx as int) + (seq![d] + s0.skip(idx as int)));
                    assert forall|a: int, b: int|
                        0 <= a < b < days@.len() implies spec_day_le(days@[b], days@[a]) by {
                        if b < idx {
                            assert(days@[a] == s0[a] && days@[b] == s0[b]);
                        } else if b == idx {
                            assert(days@[a] == s0[a] && days@[b] == d);
                            assert(spec_day_after(s0[a], d));
                        } else if a < idx {
                            assert(days@[a] == s0[a] && days@[b] == s0[b - 1]);
                            assert(a <= b - 1 < s0.len());
                            if a < b - 1 {
                                assert(spec_day_le(s0[b - 1], s0[a]));
                            }
                        } else if a == idx {
                            assert(days@[a] == d && days@[b] == s0[b - 1]);
                            assert(idx <= b - 1 < s0.len());
                            assert(!spec_day_after(s0[idx as int], d));
                            if idx < b - 1 {
                                assert(spec_day_le(s0[b - 1], s0[idx as int]));
                            }
                        } else {
                            assert(days@[a] == s0[a - 1] && days@[b] == s0[b - 1]);
                        }
                    }
                    assert forall|a: int, b: int|
                        0 <= a < days@.len() && 0 <= b < days@.len() && a != b implies days@[a]
                        != days@[b] by {
                        let olda = if a < idx { a } else { a - 1 };
                        let oldb = if b < idx { b } else { b - 1 };
                        if a == idx {
                            assert(days@[b] == s0[oldb]);
                            assert(s0.contains(s0[oldb]));
                        } else if b == idx {
                            assert(days@[a] == s0[olda]);
                            assert(s0.contains(s0[olda]));
                        } else {
                            assert(days@[a] == s0[olda] && days@[b] == s0[oldb]);
                        }
                    }
                    assert forall|t: (u32, u32, u32)| days@.contains(t) implies (s0.contains(t) || t
                        == d) by {
                        let w = choose|w: int| 0 <= w < days@.len() && days@[w] == t;
                        if w < idx {
                            assert(s0[w] == t);
                            assert(s0.contains(t));
                        } else if w > idx {
                            assert(s0[w - 1] == t);
                            assert(s0.contains(t));
                        }
                    }
                    assert forall|t: (u32, u32, u32)| s0.contains(t) || t == d implies days@
                        .contains(t) by {
                        if t == d {
                            assert(days@[idx as int] == t);
                        } else {
                            let w = choose|w: int| 0 <= w < s0.len() && s0[w] == t;
                            if w < idx {
                                assert(days@[w] == t);
                            } else {
                                assert(days@[w + 1] == t);
                            }
                        }
                    }
                    assert(forall|t: (u32, u32, u32)|
                        #[trigger] days@.contains(t) <==> (s0.contains(t) || t == d));
                }
            } else {
                proof {
                    assert(days@ == s0);
                    assert(forall|t: (u32, u32, u32)|
                        #[trigger] days@.contains(t) <==> (s0.contains(t) || t == d));
                }
            }
            proof {
                assert forall|t: (u32, u32, u32)|
                    days@.contains(t) <==> exists|j: int|
                        0 <= j < i + 1 && utc_civil_of(self.entries@[j].timestamp_millis)
                            == t by {
                    assert(days@.contains(t) <==> (s0.contains(t) || t == d));
                    if days@.contains(t) {
                        if s0.contains(t) {
                            let j = choose|j: int|
                                0 <= j < i && utc_civil_of(self.entries@[j].timestamp_millis)
                                    == t;
                            assert(0 <= j < i + 1 && utc_civil_of(
                                self.entries@[j].timestamp_millis,
                            ) == t);
                        } else {
                            assert(t == d);
                            assert(utc_civil_of(self.entries@[i as int].timestamp_millis) == t);
                        }
                    }
                    if exists|j: int|
                        0 <= j < i + 1 && utc_civil_of(self.entries@[j].timestamp_millis) == t {
                        let j = choose|j: int|
                            0 <= j < i + 1 && utc_civil_of(self.entries@[j].timestamp_millis)
                                == t;
                        if j == i {
                            assert(t == d);
                        } else {
                            assert(s0.contains(t));
                        }
                        assert(days@.contains(t));
                    }
                }
            }
            i = i + 1;
        }
        let mut out: Vec<String> = Vec::new();
        let m: usize = days.len();
        let mut k: usize = 0;
        while k < m
            invariant
                k <= m,
                m == days@.len(),
                out@.len() == k,
                forall|t: int|
                    0 <= t < k ==> out@[t]@ == spec_date_key(
                        days@[t].0 as nat,
                        days@[t].1 as nat,
                        days@[t].2 as nat,
                    ),
            decreases m - k,
        {
            let (y, mo, da) = days[k];
            out.push(format_date_key(y, mo, da));
            k = k + 1;
        }
        out
    }

    /// Delete every entry; how many there were.
    pub fn delete_all_entries(&mut self) -> (r: Result<usize, String>)
        ensures
            final(self).entries@ == Seq::<LogEntry>::empty(),
            r == Ok::<usize, String>(old(self).entries.len()),
    {
        let count = self.entries.len();
        self.entries.clear();
        Ok(count)
    }
}

impl Default for LogManager {
    /// An empty log store.
    fn default() -> (r: Self)
        ensures
            r.entries@ == Seq::<LogEntry>::empty(),
    {
        LogManager { entries: Vec::new() }
    }
}

} // verus!
