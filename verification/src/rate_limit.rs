use vstd::prelude::*;
use vstd::hash_map::StringHashMap;

verus! {

/// The entries of a bucket that still count: those from the first one on
/// that is not older than `cutoff`.
pub open spec fn fresh_entries(bucket: Seq<u64>, cutoff: int) -> Seq<u64>
    decreases bucket.len(),
{
    if bucket.len() > 0 && bucket[0] < cutoff {
        fresh_entries(bucket.drop_first(), cutoff)
    } else {
        bucket
    }
}

/// What a request at the time `now` does to the bucket of its key, and
/// whether it is admitted: entries older than the window are dropped; if
/// `max` entries remain the request is refused, else it is admitted and
/// entered.
pub open spec fn take_request(bucket: Seq<u64>, now: u64, window: u64, max: usize) -> (bool, Seq<u64>) {
    let kept = fresh_entries(bucket, now - window);
    if kept.len() >= max {
        (false, kept)
    } else {
        (true, kept.push(now))
    }
}

/// A limiter of requests per key: no more than `max_requests` in any
/// window of `window_ms` milliseconds. Times are milliseconds on a clock
/// that does not run backwards; a time before the latest one seen counts
/// as the latest.
pub struct InMemoryRateLimiter {
    window_ms: u64,
    max_requests: usize,
    clock: u64,
    buckets: StringHashMap<Vec<u64>>,
}

impl InMemoryRateLimiter {
    pub closed spec fn window_ms(&self) -> u64 {
        self.window_ms
    }

    pub closed spec fn max_requests(&self) -> usize {
        self.max_requests
    }

    /// The latest time that the limiter has seen.
    pub closed spec fn clock(&self) -> u64 {
        self.clock
    }

    /// The times of the admitted requests of a key that still count.
    pub closed spec fn bucket(&self, key: Seq<char>) -> Seq<u64> {
        if self.buckets@.contains_key(key) {
            self.buckets@[key]@
        } else {
            Seq::empty()
        }
    }

    pub fn new(window_ms: u64, max_requests: usize) -> (limiter: InMemoryRateLimiter)
        ensures
            limiter.window_ms() == window_ms,
            limiter.max_requests() == max_requests,
            limiter.clock() == 0,
            forall|key: Seq<char>| limiter.bucket(key) == Seq::<u64>::empty(),
    {
        InMemoryRateLimiter { window_ms, max_requests, clock: 0, buckets: StringHashMap::new() }
    }

    /// The limiter of the public trial: five requests in fifteen minutes.
    pub fn for_preflight_test() -> (limiter: InMemoryRateLimiter)
        ensures
            limiter.window_ms() == 900_000,
            limiter.max_requests() == 5,
            limiter.clock() == 0,
            forall|key: Seq<char>| limiter.bucket(key) == Seq::<u64>::empty(),
    {
        InMemoryRateLimiter::new(900_000, 5)
    }

    /// The limiter of the interface for programs: a hundred requests in
    /// fifteen minutes.
    pub fn for_api() -> (limiter: InMemoryRateLimiter)
        ensures
            limiter.window_ms() == 900_000,
            limiter.max_requests() == 100,
            limiter.clock() == 0,
            forall|key: Seq<char>| limiter.bucket(key) == Seq::<u64>::empty(),
    {
        InMemoryRateLimiter::new(900_000, 100)
    }

    /// Takes a request of `key` at the time `now`, in milliseconds, and
    /// says whether it is admitted. Only the bucket of `key` changes.
    pub fn check_and_count(&mut self, key: &str, now: u64) -> (admitted: bool)
        ensures
            final(self).window_ms() == old(self).window_ms(),
            final(self).max_requests() == old(self).max_requests(),
            final(self).clock() == if now > old(self).clock() {
                now
            } else {
                old(self).clock()
            },
            (admitted, final(self).bucket(key@)) == take_request(
                old(self).bucket(key@),
                final(self).clock(),
                old(self).window_ms(),
                old(self).max_requests(),
            ),
            forall|other: Seq<char>|
                other != key@ ==> final(self).bucket(other) == old(self).bucket(other),
    {
        if now > self.clock {
            self.clock = now;
        }
        let now = self.clock;
        let cutoff: u64 = if now >= self.window_ms {
            now - self.window_ms
        } else {
            0
        };
        let mut kept: Vec<u64> = Vec::new();
        let ghost bucket = self.bucket(key@);
        match self.buckets.get(key) {
            Some(entries) => {
                let mut first: usize = 0;
                assert(entries@.skip(0) == entries@);
                while first < entries.len() && entries[first] < cutoff
                    invariant
                        first <= entries.len(),
                        fresh_entries(entries@, now - self.window_ms) == fresh_entries(
                            entries@.skip(first as int),
                            now - self.window_ms,
                        ),
                        cutoff == if now >= self.window_ms {
                            now - self.window_ms
                        } else {
                            0
                        },
                    decreases entries.len() - first,
                {
                    assert(entries@.skip(first as int).drop_first() == entries@.skip(first + 1));
                    first += 1;
                }
                assert(fresh_entries(entries@, now - self.window_ms) == entries@.skip(
                    first as int,
                ));
                let mut i: usize = first;
                while i < entries.len()
                    invariant
                        first <= i <= entries.len(),
                        kept@ == entries@.subrange(first as int, i as int),
                    decreases entries.len() - i,
                {
                    kept.push(entries[i]);
                    i += 1;
                }
                assert(kept@ == entries@.skip(first as int));
            },
            None => {},
        }
        assert(kept@ == fresh_entries(bucket, now - self.window_ms));
        let admitted = kept.len() < self.max_requests;
        if admitted {
            kept.push(now);
        }
        self.buckets.insert(key.to_owned(), kept);
        assert forall|other: Seq<char>| other != key@ implies self.bucket(other) == old(
            self,
        ).bucket(other) by {}
        admitted
    }
}

/// The bucket of a key after requests of that key at the given times, one
/// after the other, beginning with an empty bucket.
pub open spec fn bucket_after(window: u64, max: usize, times: Seq<u64>) -> Seq<u64>
    decreases times.len(),
{
    if times.len() == 0 {
        Seq::empty()
    } else {
        take_request(bucket_after(window, max, times.drop_last()), times.last(), window, max).1
    }
}

/// Whether the request number `at` of the key is admitted.
pub open spec fn admitted_at(window: u64, max: usize, times: Seq<u64>, at: int) -> bool {
    take_request(bucket_after(window, max, times.take(at)), times[at], window, max).0
}

/// How many of the requests number `from` to `to` of the key are
/// admitted.
pub open spec fn admissions(window: u64, max: usize, times: Seq<u64>, from: int, to: int) -> nat
    decreases to - from + 1,
{
    if to < from {
        0
    } else {
        let here: nat = if admitted_at(window, max, times, to) {
            1
        } else {
            0
        };
        admissions(window, max, times, from, to - 1) + here
    }
}

/// How many entries of a bucket are not older than `since`.
pub open spec fn entries_since(bucket: Seq<u64>, since: int) -> nat
    decreases bucket.len(),
{
    if bucket.len() == 0 {
        0
    } else {
        let here: nat = if bucket.last() >= since {
            1
        } else {
            0
        };
        entries_since(bucket.drop_last(), since) + here
    }
}

proof fn lemma_entries_since_bound(bucket: Seq<u64>, since: int)
    ensures
        entries_since(bucket, since) <= bucket.len(),
    decreases bucket.len(),
{
    if bucket.len() > 0 {
        lemma_entries_since_bound(bucket.drop_last(), since);
    }
}

proof fn lemma_fresh_entries(bucket: Seq<u64>, cutoff: int, since: int)
    requires
        cutoff <= since,
    ensures
        fresh_entries(bucket, cutoff).len() <= bucket.len(),
        entries_since(fresh_entries(bucket, cutoff), since) == entries_since(bucket, since),
    decreases bucket.len(),
{
    if bucket.len() > 0 && bucket[0] < cutoff {
        lemma_fresh_entries(bucket.drop_first(), cutoff, since);
        lemma_entries_since_drop_first(bucket, since);
    }
}

proof fn lemma_entries_since_drop_first(bucket: Seq<u64>, since: int)
    requires
        bucket.len() > 0,
        bucket[0] < since,
    ensures
        entries_since(bucket.drop_first(), since) == entries_since(bucket, since),
    decreases bucket.len(),
{
    if bucket.len() > 1 {
        lemma_entries_since_drop_first(bucket.drop_last(), since);
        assert(bucket.drop_last().drop_first() == bucket.drop_first().drop_last());
    } else {
        assert(bucket.drop_first() =~= Seq::<u64>::empty());
        assert(bucket.drop_last() =~= Seq::<u64>::empty());
    }
}

/// A bucket never holds more than `max` entries.
pub proof fn lemma_bucket_bound(window: u64, max: usize, times: Seq<u64>)
    ensures
        bucket_after(window, max, times).len() <= max,
    decreases times.len(),
{
    if times.len() > 0 {
        lemma_bucket_bound(window, max, times.drop_last());
        lemma_fresh_entries(
            bucket_after(window, max, times.drop_last()),
            times.last() - window,
            times.last() - window,
        );
    }
}

proof fn lemma_admissions_in_bucket(window: u64, max: usize, times: Seq<u64>, from: int, to: int)
    requires
        forall|a: int, b: int| 0 <= a <= b < times.len() ==> times[a] <= times[b],
        0 <= from <= to < times.len(),
        times[to] - times[from] <= window,
    ensures
        admissions(window, max, times, from, to) <= entries_since(
            bucket_after(window, max, times.take(to + 1)),
            times[from] as int,
        ),
    decreases to - from,
{
    let before = bucket_after(window, max, times.take(to));
    let after = bucket_after(window, max, times.take(to + 1));
    assert(times.take(to + 1).drop_last() == times.take(to));
    assert(times.take(to + 1).last() == times[to]);
    assert(after == take_request(before, times[to], window, max).1);
    let kept = fresh_entries(before, times[to] - window);
    lemma_fresh_entries(before, times[to] - window, times[from] as int);
    if admitted_at(window, max, times, to) {
        assert(after == kept.push(times[to]));
        assert(after.drop_last() == kept);
    }
    if to > from {
        lemma_admissions_in_bucket(window, max, times, from, to - 1);
        assert(times.take(to - 1 + 1) == times.take(to));
    } else {
        assert(admissions(window, max, times, from, to - 1) == 0);
    }
}

/// For any key, the requests that are admitted within any stretch of time
/// no longer than the window are no more than `max`: of the requests
/// number `from` to `to` of a key, made at times that do not go back and
/// of which the last is no more than the window after the first, at most
/// `max` are admitted.
pub proof fn lemma_window_bound(window: u64, max: usize, times: Seq<u64>, from: int, to: int)
    requires
        forall|a: int, b: int| 0 <= a <= b < times.len() ==> times[a] <= times[b],
        0 <= from <= to < times.len(),
        times[to] - times[from] <= window,
    ensures
        admissions(window, max, times, from, to) <= max,
{
    lemma_admissions_in_bucket(window, max, times, from, to);
    lemma_bucket_bound(window, max, times.take(to + 1));
    lemma_entries_since_bound(bucket_after(window, max, times.take(to + 1)), times[from] as int);
}

} // verus!
