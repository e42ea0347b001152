//! Per-subject request limiting over a sliding window.
//!
//! Time is a plain tick count that the caller supplies; the limiter never
//! reads a clock itself. Ticks and windows share one unit of the caller's
//! choosing.

use dashmap::DashMap;
use std::collections::hash_map::RandomState;
use vstd::prelude::*;

verus! {

/// What the limiter remembers about one subject: how many requests were
/// accepted in the current window, and the tick at which that window began.
#[derive(Clone, Copy, Debug, PartialEq, Eq, Structural)]
pub struct RateLimitData {
    pub request_count: usize,
    pub first_request_time: u64,
}

/// Ticks elapsed at `now` since `start`; zero when `now` lies before `start`.
pub open spec fn elapsed_since(start: u64, now: u64) -> nat {
    if now >= start {
        (now - start) as nat
    } else {
        0
    }
}

/// The record of a subject that has not been seen before `now`.
pub open spec fn fresh_record(now: u64) -> RateLimitData {
    RateLimitData { request_count: 0, first_request_time: now }
}

/// Whether a request arriving at `now` is accepted against record `d`.
pub open spec fn accepts(d: RateLimitData, now: u64, max_requests: usize, window: u64) -> bool {
    elapsed_since(d.first_request_time, now) >= window || d.request_count < max_requests
}

/// The record after a request arriving at `now` was judged against `d`.
pub open spec fn record_after(
    d: RateLimitData,
    now: u64,
    max_requests: usize,
    window: u64,
) -> RateLimitData {
    if elapsed_since(d.first_request_time, now) >= window {
        RateLimitData { request_count: 1, first_request_time: now }
    } else if d.request_count < max_requests {
        RateLimitData {
            request_count: (d.request_count + 1) as usize,
            first_request_time: d.first_request_time,
        }
    } else {
        d
    }
}

impl RateLimitData {
    /// Judges one request arriving at `now` and records it when accepted.
    ///
    /// Once the window has run out the record starts over at `now` with a
    /// count of one. Inside the window the request is counted while fewer
    /// than `max_requests` were accepted, and refused without a trace after
    /// that.
    pub fn check_and_record(&mut self, max_requests: usize, window: u64, now: u64) -> (allowed:
        bool)
        ensures
            allowed == accepts(*old(self), now, max_requests, window),
            *final(self) == record_after(*old(self), now, max_requests, window),
    {
        let elapsed: u64 = if now >= self.first_request_time {
            now - self.first_request_time
        } else {
            0
        };
        if elapsed >= window {
            self.request_count = 1;
            self.first_request_time = now;
            true
        } else if self.request_count < max_requests {
            self.request_count = self.request_count + 1;
            true
        } else {
            false
        }
    }
}

/// `dashmap::DashMap`, the concurrent map that holds the records. Verus sees
/// nothing inside it.
#[verifier::external_type_specification]
#[verifier::external_body]
#[verifier::reject_recursive_types(K)]
#[verifier::reject_recursive_types(V)]
#[verifier::reject_recursive_types(S)]
pub struct ExDashMap<K, V, S>(DashMap<K, V, S>);

/// The records that a table holds, by subject.
pub uninterp spec fn table_records(table: DashMap<String, RateLimitData, RandomState>) -> Map<
    Seq<char>,
    RateLimitData,
>;

/// `DashMap::new`: the map it makes holds no entry.
#[verifier::external_body]
fn table_new() -> (made: DashMap<String, RateLimitData, RandomState>)
    ensures
        table_records(made) =~= Map::empty(),
{
    DashMap::new()
}

/// `DashMap::get`: a copy of the value stored under `key`, or `None` when the
/// map has no such key. The map is left as it was.
#[verifier::external_body]
fn table_get(table: &DashMap<String, RateLimitData, RandomState>, key: &str) -> (found: Option<
    RateLimitData,
>)
    ensures
        found == if table_records(*table).contains_key(key@) {
            Some(table_records(*table)[key@])
        } else {
            None
        },
{
    table.get(key).map(|entry| *entry.value())
}

/// `DashMap::insert`: afterwards `key` maps to `value`, and every other key
/// maps to what it did before.
#[verifier::external_body]
fn table_insert(
    table: &mut DashMap<String, RateLimitData, RandomState>,
    key: &str,
    value: RateLimitData,
)
    ensures
        table_records(*final(table)) == table_records(*old(table)).insert(key@, value),
{
    table.insert(key.to_string(), value);
}

/// The limiter: one record per subject that ever asked. Records are never
/// dropped.
pub struct RateLimiter {
    table: DashMap<String, RateLimitData, RandomState>,
}

impl View for RateLimiter {
    type V = Map<Seq<char>, RateLimitData>;

    closed spec fn view(&self) -> Map<Seq<char>, RateLimitData> {
        table_records(self.table)
    }
}

/// The record against which a request of `subject` at `now` is judged: the
/// stored one, or a fresh one for a subject not seen before.
pub open spec fn record_of(
    records: Map<Seq<char>, RateLimitData>,
    subject: Seq<char>,
    now: u64,
) -> RateLimitData {
    if records.contains_key(subject) {
        records[subject]
    } else {
        fresh_record(now)
    }
}

impl RateLimiter {
    /// A limiter that has seen nobody.
    pub fn new() -> (limiter: RateLimiter)
        ensures
            limiter@ == Map::<Seq<char>, RateLimitData>::empty(),
    {
        RateLimiter { table: table_new() }
    }

    /// The record kept for `subject`, if it ever asked.
    pub fn record(&self, subject: &str) -> (found: Option<RateLimitData>)
        ensures
            found == if self@.contains_key(subject@) {
                Some(self@[subject@])
            } else {
                None
            },
    {
        table_get(&self.table, subject)
    }

    /// Judges one request of `subject` arriving at `now`, and records it.
    ///
    /// A subject not seen before starts from a fresh record at `now`. Only
    /// the subject's own record changes; it is stored even when the request
    /// is refused.
    pub fn check_and_record(
        &mut self,
        subject: &str,
        max_requests: usize,
        window: u64,
        now: u64,
    ) -> (allowed: bool)
        ensures
            allowed == accepts(record_of(old(self)@, subject@, now), now, max_requests, window),
            final(self)@ == old(self)@.insert(
                subject@,
                record_after(record_of(old(self)@, subject@, now), now, max_requests, window),
            ),
    {
        let mut data = match table_get(&self.table, subject) {
            Some(found) => found,
            None => RateLimitData { request_count: 0, first_request_time: now },
        };
        let allowed = data.check_and_record(max_requests, window, now);
        table_insert(&mut self.table, subject, data);
        allowed
    }
}

/// Whether a request of `auth_id` arriving at `now` must be turned away:
/// the opposite of [`RateLimiter::check_and_record`], with the same effect on
/// the limiter.
pub fn is_rate_limited(
    auth_id: &str,
    max_requests: usize,
    time_window: u64,
    now: u64,
    limiter: &mut RateLimiter,
) -> (limited: bool)
    ensures
        limited == !accepts(record_of(old(limiter)@, auth_id@, now), now, max_requests, time_window),
        final(limiter)@ == old(limiter)@.insert(
            auth_id@,
            record_after(record_of(old(limiter)@, auth_id@, now), now, max_requests, time_window),
        ),
{
    !limiter.check_and_record(auth_id, max_requests, time_window, now)
}

/// Whatever a record holds: inside its window a request is accepted
/// exactly while fewer than `max_requests` were counted, and a refused
/// request leaves the record as it was; once the window has run out a
/// request is always accepted and starts a new window with a count of one.
pub proof fn law_one_request(d: RateLimitData, now: u64, max_requests: usize, window: u64)
    ensures
        elapsed_since(d.first_request_time, now) < window ==> accepts(d, now, max_requests, window)
            == (d.request_count < max_requests),
        !accepts(d, now, max_requests, window) ==> record_after(d, now, max_requests, window) == d,
        elapsed_since(d.first_request_time, now) >= window ==> accepts(d, now, max_requests, window)
            && record_after(d, now, max_requests, window) == (RateLimitData {
            request_count: 1,
            first_request_time: now,
        }),
        elapsed_since(d.first_request_time, now) < window && d.request_count < max_requests
            ==> record_after(d, now, max_requests, window) == (RateLimitData {
            request_count: (d.request_count + 1) as usize,
            first_request_time: d.first_request_time,
        }),
{
}

/// With a maximum of zero and a window that is not empty, a subject not
/// seen before is refused at once.
pub proof fn law_zero_maximum_refuses(
    records: Map<Seq<char>, RateLimitData>,
    subject: Seq<char>,
    now: u64,
    window: u64,
)
    requires
        !records.contains_key(subject),
        window > 0,
    ensures
        !accepts(record_of(records, subject, now), now, 0, window),
{
}

/// The records after `subject` asked once at each of `times`, in that order.
pub open spec fn records_after(
    records: Map<Seq<char>, RateLimitData>,
    subject: Seq<char>,
    times: Seq<u64>,
    max_requests: usize,
    window: u64,
) -> Map<Seq<char>, RateLimitData>
    decreases times.len(),
{
    if times.len() == 0 {
        records
    } else {
        let before = records_after(records, subject, times.drop_last(), max_requests, window);
        before.insert(
            subject,
            record_after(
                record_of(before, subject, times.last()),
                times.last(),
                max_requests,
                window,
            ),
        )
    }
}

/// Whether the request that `subject` makes at `times[i]`, after those at
/// the earlier ticks of `times`, is accepted.
pub open spec fn accepted_at(
    records: Map<Seq<char>, RateLimitData>,
    subject: Seq<char>,
    times: Seq<u64>,
    i: int,
    max_requests: usize,
    window: u64,
) -> bool {
    let before = records_after(records, subject, times.take(i), max_requests, window);
    accepts(record_of(before, subject, times[i]), times[i], max_requests, window)
}

/// A subject not seen before that asks at most `max_requests` times, all
/// inside the window that its first request opens, is accepted every time;
/// its record then counts those requests from the tick of the first.
pub proof fn law_window_admits_up_to_max(
    records: Map<Seq<char>, RateLimitData>,
    subject: Seq<char>,
    times: Seq<u64>,
    max_requests: usize,
    window: u64,
)
    requires
        !records.contains_key(subject),
        1 <= times.len() <= max_requests,
        forall|i: int| 0 <= i < times.len() ==> elapsed_since(times[0], #[trigger] times[i]) < window,
    ensures
        forall|i: int|
            0 <= i < times.len() ==> accepted_at(records, subject, times, i, max_requests, window),
        records_after(records, subject, times, max_requests, window)[subject] == (RateLimitData {
            request_count: times.len() as usize,
            first_request_time: times[0],
        }),
        records_after(records, subject, times, max_requests, window).contains_key(subject),
    decreases times.len(),
{
    let shorter = times.drop_last();
    let before = records_after(records, subject, shorter, max_requests, window);
    assert(elapsed_since(times[0], times.last()) < window);
    if times.len() == 1 {
        assert(shorter.len() == 0);
        assert(before == records);
        assert(times.take(0).len() == 0);
        assert(times.last() == times[0]);
        assert(record_of(before, subject, times.last()) == fresh_record(times[0]));
    } else {
        assert(shorter[0] == times[0]);
        assert forall|i: int| 0 <= i < shorter.len() implies elapsed_since(
            shorter[0],
            #[trigger] shorter[i],
        ) < window by {
            assert(shorter[i] == times[i]);
        }
        law_window_admits_up_to_max(records, subject, shorter, max_requests, window);
        assert(record_of(before, subject, times.last()) == (RateLimitData {
            request_count: shorter.len() as usize,
            first_request_time: times[0],
        }));
        assert forall|i: int| 0 <= i < times.len() implies accepted_at(
            records,
            subject,
            times,
            i,
            max_requests,
            window,
        ) by {
            if i < shorter.len() {
                assert(times.take(i) =~= shorter.take(i));
                assert(accepted_at(records, subject, shorter, i, max_requests, window));
                assert(shorter[i] == times[i]);
            } else {
                assert(times.take(i) =~= shorter);
                assert(times[i] == times.last());
            }
        }
    }
}

/// After exactly `max_requests` accepted requests inside one window, the
/// next request inside that window is refused and changes nothing.
pub proof fn law_full_window_refuses(
    records: Map<Seq<char>, RateLimitData>,
    subject: Seq<char>,
    times: Seq<u64>,
    next: u64,
    max_requests: usize,
    window: u64,
)
    requires
        !records.contains_key(subject),
        1 <= times.len() == max_requests,
        forall|i: int| 0 <= i < times.len() ==> elapsed_since(times[0], #[trigger] times[i]) < window,
        elapsed_since(times[0], next) < window,
    ensures
        accepted_at(records, subject, times.push(next), times.len() as int, max_requests, window)
            == false,
        records_after(records, subject, times.push(next), max_requests, window) == records_after(
            records,
            subject,
            times,
            max_requests,
            window,
        ),
{
    law_window_admits_up_to_max(records, subject, times, max_requests, window);
    let longer = times.push(next);
    assert(longer.take(times.len() as int) =~= times);
    assert(longer.drop_last() =~= times);
    assert(longer.last() == next);
    let before = records_after(records, subject, times, max_requests, window);
    assert(before.insert(subject, before[subject]) =~= before);
}

/// Once the window that the first of `times` opened has run out, the next
/// request is accepted whatever was counted, and opens a new window at its
/// own tick with a count of one.
pub proof fn law_elapsed_window_resets(
    records: Map<Seq<char>, RateLimitData>,
    subject: Seq<char>,
    times: Seq<u64>,
    next: u64,
    max_requests: usize,
    window: u64,
)
    requires
        !records.contains_key(subject),
        1 <= times.len() <= max_requests,
        forall|i: int| 0 <= i < times.len() ==> elapsed_since(times[0], #[trigger] times[i]) < window,
        elapsed_since(times[0], next) >= window,
    ensures
        accepted_at(records, subject, times.push(next), times.len() as int, max_requests, window),
        records_after(records, subject, times.push(next), max_requests, window)[subject] == (
        RateLimitData { request_count: 1, first_request_time: next }),
{
    law_window_admits_up_to_max(records, subject, times, max_requests, window);
    let longer = times.push(next);
    assert(longer.take(times.len() as int) =~= times);
    assert(longer.drop_last() =~= times);
    assert(longer.last() == next);
}

/// A request of one subject never touches the record of another.
pub proof fn law_subjects_are_independent(
    records: Map<Seq<char>, RateLimitData>,
    subject: Seq<char>,
    other: Seq<char>,
    times: Seq<u64>,
    max_requests: usize,
    window: u64,
)
    requires
        subject != other,
    ensures
        records_after(records, subject, times, max_requests, window).contains_key(other)
            == records.contains_key(other),
        records.contains_key(other) ==> records_after(
            records,
            subject,
            times,
            max_requests,
            window,
        )[other] == records[other],
    decreases times.len(),
{
    if times.len() > 0 {
        law_subjects_are_independent(
            records,
            subject,
            other,
            times.drop_last(),
            max_requests,
            window,
        );
    }
}

} // verus!
