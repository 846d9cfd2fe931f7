//! Usage counters and the registry that samples them.
//!
//! A counter's value is a whole number of millionths of its unit: a
//! duration counter counts microseconds, and `3.5` of anything is
//! `3_500_000`.

use vstd::prelude::*;
use crate::clock::now_micros;
use crate::counter::requests_duration::RequestsDurationCounter;
use crate::error::{ErrorKind, ErrorView, ExeUnitError};
use crate::text::same_text;

pub mod requests_duration;

verus! {

/// How many counter units make one unit of the metric.
pub const UNITS_PER_ONE: i64 = 1_000_000;

/// A single billable metric.
#[derive(Clone, Copy, Debug)]
pub enum UsageCounter {
    /// A figure that the runtime is told, and that stays until it is told
    /// another.
    Input { value: i64 },
    /// Time spent with requests in flight.
    RequestsDuration { counter: RequestsDurationCounter },
}

impl UsageCounter {
    /// The counter's value at `now`.
    pub open spec fn value(self, now: int) -> int {
        match self {
            UsageCounter::Input { value } => value as int,
            UsageCounter::RequestsDuration { counter } => counter.value(now),
        }
    }

    /// The value at `now`, or `None` when it does not fit the result type.
    /// Reading changes nothing.
    pub fn count_at(&self, now: i64) -> (r: Option<i64>)
        ensures
            r is Some <==> i64::MIN <= self.value(now as int) <= i64::MAX,
            r is Some ==> r->0 == self.value(now as int),
    {
        match self {
            UsageCounter::Input { value } => Some(*value),
            UsageCounter::RequestsDuration { counter } => counter.count_at(now),
        }
    }
}

/// A registered counter: its name, the counter, and the most that its
/// value may reach.
#[derive(Debug)]
pub struct CounterEntry {
    pub name: String,
    pub counter: UsageCounter,
    pub limit: Option<i64>,
}

impl CounterEntry {
    /// What is wrong with the counter at `now`, if anything: its value
    /// cannot be given, or it is over the limit.
    pub open spec fn fault(self, now: int) -> Option<ErrorKind> {
        let value = self.counter.value(now);
        if !(i64::MIN <= value <= i64::MAX) {
            Some(ErrorKind::CounterSampling)
        } else if self.limit is Some && value > self.limit->0 {
            Some(ErrorKind::UsageLimitExceeded)
        } else {
            None
        }
    }
}

/// The names of the counters, in order.
pub open spec fn names(entries: Seq<CounterEntry>) -> Seq<Seq<char>> {
    Seq::new(entries.len(), |i: int| entries[i].name@)
}

/// The values of the counters at `now`, in order.
pub open spec fn values(entries: Seq<CounterEntry>, now: int) -> Seq<int> {
    Seq::new(entries.len(), |i: int| entries[i].counter.value(now))
}

/// Whether the counter at `k` is the first at fault at `now`.
pub open spec fn first_fault_at(entries: Seq<CounterEntry>, now: int, k: int) -> bool {
    &&& 0 <= k < entries.len()
    &&& entries[k].fault(now) is Some
    &&& forall|j: int| 0 <= j < k ==> (#[trigger] entries[j]).fault(now) is None
}

/// Whether no counter is at fault at `now`.
pub open spec fn sound_at(entries: Seq<CounterEntry>, now: int) -> bool {
    forall|i: int| 0 <= i < entries.len() ==> (#[trigger] entries[i]).fault(now) is None
}

/// What sampling at `now` gives when no counter is at fault: the values,
/// in order.
pub open spec fn sample(entries: Seq<CounterEntry>, now: int) -> Seq<i64> {
    Seq::new(entries.len(), |i: int| entries[i].counter.value(now) as i64)
}

/// The counters after the input counter at `index` was told `value`. They
/// are unchanged when there is no counter at `index` or it is no input
/// counter.
pub open spec fn with_input(entries: Seq<CounterEntry>, index: int, value: i64) -> Seq<
    CounterEntry,
> {
    if 0 <= index < entries.len() && entries[index].counter is Input {
        entries.update(
            index,
            CounterEntry {
                name: entries[index].name,
                counter: UsageCounter::Input { value },
                limit: entries[index].limit,
            },
        )
    } else {
        entries
    }
}

/// The counters after the counter at `index` was replaced by `counter`.
pub open spec fn with_counter_at(entries: Seq<CounterEntry>, index: int, counter: UsageCounter)
    -> Seq<CounterEntry> {
    entries.update(
        index,
        CounterEntry { name: entries[index].name, counter, limit: entries[index].limit },
    )
}

/// Whether the counter at `index` counts the duration of requests and has
/// room for one more.
pub open spec fn can_open_at(entries: Seq<CounterEntry>, index: int) -> bool {
    &&& 0 <= index < entries.len()
    &&& entries[index].counter matches UsageCounter::RequestsDuration { counter }
    &&& counter.can_open()
}

/// Whether the counter at `index` counts the duration of requests and can
/// take a response at `now`.
pub open spec fn can_close_at(entries: Seq<CounterEntry>, index: int, now: i64) -> bool {
    &&& 0 <= index < entries.len()
    &&& entries[index].counter matches UsageCounter::RequestsDuration { counter }
    &&& counter.can_close(now)
}

/// The counters after every one named `name` was given the limit `limit`.
pub open spec fn with_limit(entries: Seq<CounterEntry>, name: Seq<char>, limit: i64) -> Seq<
    CounterEntry,
> {
    Seq::new(
        entries.len(),
        |i: int|
            if entries[i].name@ == name {
                CounterEntry {
                    name: entries[i].name,
                    counter: entries[i].counter,
                    limit: Some(limit),
                }
            } else {
                entries[i]
            },
    )
}

/// The registered counters, in the order in which they were registered.
#[derive(Debug)]
pub struct CounterRegistry {
    pub entries: Vec<CounterEntry>,
}

impl CounterRegistry {
    /// A registry without counters.
    pub fn new() -> (r: Self)
        ensures
            r.entries@ == Seq::<CounterEntry>::empty(),
    {
        CounterRegistry { entries: Vec::new() }
    }

    /// The number of counters.
    pub fn len(&self) -> (r: usize)
        ensures
            r == self.entries@.len(),
    {
        self.entries.len()
    }

    /// Registers `counter` under `name`, after the counters already there
    /// and without a limit.
    pub fn with_counter(self, name: String, counter: UsageCounter) -> (r: Self)
        ensures
            r.entries@ == self.entries@.push(CounterEntry { name, counter, limit: None }),
    {
        let mut r = self;
        r.entries.push(CounterEntry { name, counter, limit: None });
        r
    }

    /// Sets the limit of every counter registered under `name`. Returns
    /// whether there is such a counter.
    pub fn set_limit(&mut self, name: &str, limit: i64) -> (r: bool)
        ensures
            final(self).entries@ == with_limit(old(self).entries@, name@, limit),
            r <==> exists|i: int|
                0 <= i < old(self).entries@.len() && (#[trigger] old(self).entries@[i]).name@
                    == name@,
    {
        let mut found = false;
        let mut i: usize = 0;
        while i < self.entries.len()
            invariant
                i <= self.entries@.len(),
                self.entries@.len() == old(self).entries@.len(),
                forall|j: int|
                    0 <= j < i ==> (#[trigger] self.entries@[j]) == with_limit(
                        old(self).entries@,
                        name@,
                        limit,
                    )[j],
                forall|j: int|
                    i <= j < self.entries@.len() ==> (#[trigger] self.entries@[j])
                        == old(self).entries@[j],
                found <==> exists|j: int|
                    0 <= j < i && (#[trigger] old(self).entries@[j]).name@ == name@,
            decreases self.entries@.len() - i,
        {
            if same_text(&self.entries[i].name, name) {
                self.entries[i].limit = Some(limit);
                found = true;
            }
            i = i + 1;
        }
        assert(self.entries@ =~= with_limit(old(self).entries@, name@, limit));
        found
    }

    /// Tells the input counter at `index` its new value. Returns whether
    /// that was done: it is not, and nothing changes, when there is no
    /// counter at `index` or it is no input counter.
    pub fn set_input(&mut self, index: usize, value: i64) -> (r: bool)
        ensures
            r <==> index < old(self).entries@.len() && old(self).entries@[index as int].counter
                is Input,
            final(self).entries@ == with_input(old(self).entries@, index as int, value),
    {
        if index >= self.entries.len() {
            return false;
        }
        match self.entries[index].counter {
            UsageCounter::Input { .. } => {
                self.entries[index].counter = UsageCounter::Input { value };
                assert(self.entries@ =~= with_input(old(self).entries@, index as int, value));
                true
            },
            _ => false,
        }
    }

    /// Counts a request that opened at `now` on the counter at `index`.
    /// Returns whether it was counted: it is not, and nothing changes,
    /// when the counter at `index` does not count requests or is full.
    pub fn on_request_at(&mut self, index: usize, now: i64) -> (r: bool)
        ensures
            r == can_open_at(old(self).entries@, index as int),
            r ==> final(self).entries@ == with_counter_at(
                old(self).entries@,
                index as int,
                UsageCounter::RequestsDuration {
                    counter: old(self).entries@[index as int].counter->counter.opened(now),
                },
            ),
            !r ==> final(self).entries@ == old(self).entries@,
    {
        if index >= self.entries.len() {
            return false;
        }
        match self.entries[index].counter {
            UsageCounter::RequestsDuration { counter } => {
                let mut counter = counter;
                let counted = counter.on_request_at(now);
                if counted {
                    self.entries[index].counter = UsageCounter::RequestsDuration { counter };
                }
                assert(self.entries@ =~= if counted {
                    with_counter_at(
                        old(self).entries@,
                        index as int,
                        UsageCounter::RequestsDuration { counter },
                    )
                } else {
                    old(self).entries@
                });
                counted
            },
            _ => false,
        }
    }

    /// Counts the end of a request at `now` on the counter at `index`.
    /// Returns whether it was counted: it is not, and nothing changes,
    /// when the counter at `index` does not count requests or cannot take
    /// the response.
    pub fn on_response_at(&mut self, index: usize, now: i64) -> (r: bool)
        ensures
            r == can_close_at(old(self).entries@, index as int, now),
            r ==> final(self).entries@ == with_counter_at(
                old(self).entries@,
                index as int,
                UsageCounter::RequestsDuration {
                    counter: old(self).entries@[index as int].counter->counter.closed(now),
                },
            ),
            !r ==> final(self).entries@ == old(self).entries@,
    {
        if index >= self.entries.len() {
            return false;
        }
        match self.entries[index].counter {
            UsageCounter::RequestsDuration { counter } => {
                let mut counter = counter;
                let counted = counter.on_response_at(now);
                if counted {
                    self.entries[index].counter = UsageCounter::RequestsDuration { counter };
                }
                assert(self.entries@ =~= if counted {
                    with_counter_at(
                        old(self).entries@,
                        index as int,
                        UsageCounter::RequestsDuration { counter },
                    )
                } else {
                    old(self).entries@
                });
                counted
            },
            _ => false,
        }
    }

    /// Samples every counter at `now`, in registration order.
    ///
    /// The values come back when no counter is at fault. Otherwise the
    /// first counter at fault decides: `CounterSampling` when its value
    /// cannot be given, `UsageLimitExceeded` when it is over its limit;
    /// the error's detail is the counter's name. Sampling changes nothing.
    pub fn get_counters_at(&self, now: i64) -> (r: Result<Vec<i64>, ExeUnitError>)
        ensures
            sampled_as(self.entries@, now, r),
    {
        let mut list: Vec<i64> = Vec::new();
        let mut i: usize = 0;
        while i < self.entries.len()
            invariant
                i <= self.entries@.len(),
                list@.len() == i,
                forall|j: int| 0 <= j < i ==> (#[trigger] self.entries@[j]).fault(now as int) is None,
                forall|j: int|
                    0 <= j < i ==> (#[trigger] list@[j]) as int == self.entries@[j].counter.value(
                        now as int,
                    ),
            decreases self.entries@.len() - i,
        {
            let entry = &self.entries[i];
            match entry.counter.count_at(now) {
                None => {
                    proof {
                        lemma_first_fault_is_unique(self.entries@, now as int, i as int);
                    }
                    return Err(ExeUnitError::new(ErrorKind::CounterSampling, entry.name.clone()));
                },
                Some(value) => {
                    let over = match entry.limit {
                        Some(limit) => value > limit,
                        None => false,
                    };
                    if over {
                        proof {
                            lemma_first_fault_is_unique(self.entries@, now as int, i as int);
                        }
                        return Err(
                            ExeUnitError::new(ErrorKind::UsageLimitExceeded, entry.name.clone()),
                        );
                    }
                    list.push(value);
                },
            }
            i = i + 1;
        }
        assert(list@ =~= sample(self.entries@, now as int));
        Ok(list)
    }

    /// Samples every counter now, by the system clock. See
    /// [`Self::get_counters_at`].
    pub fn get_counters(&self) -> (r: Result<Vec<i64>, ExeUnitError>)
        ensures
            exists|now: i64| sampled_as(self.entries@, now, r),
    {
        let now = now_micros();
        let r = self.get_counters_at(now);
        assert(sampled_as(self.entries@, now, r));
        r
    }
}

/// The position of the first counter at fault at `now`, when there is one.
pub open spec fn first_fault(entries: Seq<CounterEntry>, now: int) -> int {
    choose|k: int| first_fault_at(entries, now, k)
}

/// The error that sampling at `now` gives when a counter is at fault: the
/// kind of the first fault, with the counter's name as its detail.
pub open spec fn sampling_error(entries: Seq<CounterEntry>, now: int) -> ErrorView {
    let k = first_fault(entries, now);
    ErrorView { kind: entries[k].fault(now)->0, detail: entries[k].name@ }
}

/// Whether `r` is what sampling `entries` at `now` gives: the values when
/// no counter is at fault, else the error of the first one at fault.
pub open spec fn sampled_as(
    entries: Seq<CounterEntry>,
    now: i64,
    r: Result<Vec<i64>, ExeUnitError>,
) -> bool {
    match r {
        Ok(list) => sound_at(entries, now as int) && list@ == sample(entries, now as int),
        Err(error) => !sound_at(entries, now as int) && error@ == sampling_error(
            entries,
            now as int,
        ),
    }
}

/// There is one first fault at most: a counter that is at fault while none
/// before it is, is the one that [`first_fault`] names.
pub proof fn lemma_first_fault_is_unique(entries: Seq<CounterEntry>, now: int, k: int)
    requires
        first_fault_at(entries, now, k),
    ensures
        first_fault(entries, now) == k,
        !sound_at(entries, now),
{
    let m = first_fault(entries, now);
    assert(first_fault_at(entries, now, m));
    if m < k {
        assert(entries[m].fault(now) is None);
    } else if k < m {
        assert(entries[k].fault(now) is None);
    }
}

/// Counters are sampled in the order in which they were registered: the
/// value at position `i` is that of the `i`-th counter, and a counter
/// registered later comes after all that were there.
pub proof fn lemma_sampled_in_registration_order(
    entries: Seq<CounterEntry>,
    added: CounterEntry,
    now: int,
    i: int,
)
    requires
        0 <= i < entries.len(),
    ensures
        sample(entries, now)[i] == entries[i].counter.value(now) as i64,
        names(entries.push(added)) == names(entries).push(added.name@),
        values(entries.push(added), now) == values(entries, now).push(added.counter.value(now)),
        sample(entries.push(added), now) == sample(entries, now).push(
            added.counter.value(now) as i64,
        ),
{
    assert(names(entries.push(added)) =~= names(entries).push(added.name@));
    assert(values(entries.push(added), now) =~= values(entries, now).push(
        added.counter.value(now),
    ));
    assert(sample(entries.push(added), now) =~= sample(entries, now).push(
        added.counter.value(now) as i64,
    ));
}

/// One counter over its limit is enough: when the counter at `k` is over
/// its limit at `now` and no counter before it is at fault, sampling gives
/// `UsageLimitExceeded` with that counter's name, whatever the counters
/// after it hold.
pub proof fn lemma_one_breach_suffices(entries: Seq<CounterEntry>, now: int, k: int)
    requires
        0 <= k < entries.len(),
        entries[k].fault(now) == Some(ErrorKind::UsageLimitExceeded),
        forall|j: int| 0 <= j < k ==> (#[trigger] entries[j]).fault(now) is None,
    ensures
        !sound_at(entries, now),
        sampling_error(entries, now) == (ErrorView {
            kind: ErrorKind::UsageLimitExceeded,
            detail: entries[k].name@,
        }),
{
    lemma_first_fault_is_unique(entries, now, k);
}

} // verus!
