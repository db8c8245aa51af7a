use vstd::prelude::*;
use std::time::{Duration, Instant};
use crate::clock::duration_nanos;
use crate::entry::{handle_entry, Entry, EntryView, Outcome};
use crate::monitor::Monitor;
use crate::notify::Notify;

verus! {

/// An ordered collection of entries, evaluated together on every tick.
#[must_use]
pub struct Schedule<'a> {
    entries: Vec<Entry<'a>>,
    started: Instant,
}

impl<'a> View for Schedule<'a> {
    type V = Seq<EntryView>;

    closed spec fn view(&self) -> Seq<EntryView> {
        Seq::new(self.entries@.len(), |i: int| self.entries@[i]@)
    }
}

/// Whether a tick at `now` can come to `outcomes` and leave the entries
/// `before` as `after`: there is one outcome for each entry, in the order of
/// the entries, and each entry was evaluated at `now` on its own.
pub open spec fn ticked(
    before: Seq<EntryView>,
    now: nat,
    outcomes: Seq<Outcome>,
    after: Seq<EntryView>,
) -> bool {
    &&& after.len() == before.len()
    &&& outcomes.len() == before.len()
    &&& forall|i: int|
        0 <= i < before.len() ==> (#[trigger] before[i]).follows(now, outcomes[i], after[i])
}

/// Hands every entry to `rayon::scope`, one spawned task each, and returns
/// when all of them have run. Each task is one call of `handle_entry` at
/// `now` on its entry, and stores what that call returns in the slot of
/// `outcomes` at the entry's index.
#[verifier::external_body]
fn fan_out<'a>(entries: &mut Vec<Entry<'a>>, outcomes: &mut Vec<Outcome>, now: u128)
    requires
        old(outcomes)@.len() == old(entries)@.len(),
    ensures
        final(entries)@.len() == old(entries)@.len(),
        final(outcomes)@.len() == old(entries)@.len(),
        forall|i: int|
            0 <= i < old(entries)@.len() ==> (#[trigger] old(entries)@[i])@.follows(
                now as nat,
                final(outcomes)@[i],
                final(entries)@[i]@,
            ),
{
    rayon::scope(
        |s| {
            for (entry, slot) in entries.iter_mut().zip(outcomes.iter_mut()) {
                s.spawn(
                    move |_| {
                        *slot = handle_entry(entry, now);
                    },
                );
            }
        },
    );
}

impl<'a> Default for Schedule<'a> {
    /// A schedule without entries, whose clock starts now.
    fn default() -> (schedule: Schedule<'a>)
        ensures
            schedule@ == Seq::<EntryView>::empty(),
    {
        let schedule = Schedule { entries: Vec::new(), started: Instant::now() };
        assert(schedule@ =~= Seq::<EntryView>::empty());
        schedule
    }
}

impl<'a> Schedule<'a> {
    /// Registers a monitor with the notifier that reports on it. The new
    /// entry goes to the end; it has never been checked and is not alerting.
    pub fn add<M: Monitor + 'a, N: Notify>(
        &mut self,
        fire_message: &str,
        recover_message: &str,
        wait_time: Duration,
        monitor: M,
        notifier: &'a N,
    )
        ensures
            final(self)@ == old(self)@.push(
                EntryView {
                    fire_message: fire_message@,
                    recover_message: recover_message@,
                    interval: duration_nanos(wait_time),
                    last_checked: None,
                    has_fired: false,
                },
            ),
    {
        self.add_with_nanos(fire_message, recover_message, wait_time.as_nanos(), monitor, notifier);
    }

    /// Registers a monitor as `add` does, with the interval given in
    /// nanoseconds.
    pub fn add_with_nanos<M: Monitor + 'a, N: Notify>(
        &mut self,
        fire_message: &str,
        recover_message: &str,
        wait_nanos: u128,
        monitor: M,
        notifier: &'a N,
    )
        ensures
            final(self)@ == old(self)@.push(
                EntryView {
                    fire_message: fire_message@,
                    recover_message: recover_message@,
                    interval: wait_nanos as nat,
                    last_checked: None,
                    has_fired: false,
                },
            ),
    {
        let entry = Entry::new(fire_message, recover_message, wait_nanos, monitor, notifier);
        self.entries.push(entry);
        assert(self@ =~= old(self)@.push(entry@));
    }

    /// The number of entries.
    pub fn len(&self) -> (count: usize)
        ensures
            count == self@.len(),
    {
        self.entries.len()
    }

    /// The entry at `index`, counted from zero in the order of registration.
    pub fn entry(&self, index: usize) -> (entry: Option<&Entry<'a>>)
        ensures
            match entry {
                Some(e) => index < self@.len() && e@ == self@[index as int],
                None => index >= self@.len(),
            },
    {
        if index < self.entries.len() {
            Some(&self.entries[index])
        } else {
            None
        }
    }

    /// One tick at the time `now`, in nanoseconds on the caller's clock:
    /// every entry is evaluated once, the due ones concurrently, and the
    /// tick ends when all of them are done. The outcomes come back in the
    /// order of the entries.
    pub fn run_at(&mut self, now: u128) -> (outcomes: Vec<Outcome>)
        ensures
            ticked(old(self)@, now as nat, outcomes@, final(self)@),
    {
        let mut outcomes: Vec<Outcome> = Vec::new();
        while outcomes.len() < self.entries.len()
            invariant
                outcomes@.len() <= self.entries@.len(),
            decreases self.entries@.len() - outcomes@.len(),
        {
            outcomes.push(Outcome::Skipped);
        }
        fan_out(&mut self.entries, &mut outcomes, now);
        outcomes
    }

    /// One tick at the present time, read once from the schedule's own clock.
    pub fn run(&mut self) -> (outcomes: Vec<Outcome>)
        ensures
            exists|now: nat| ticked(old(self)@, now, outcomes@, final(self)@),
    {
        let now: u128 = self.started.elapsed().as_nanos();
        let outcomes = self.run_at(now);
        assert(ticked(old(self)@, now as nat, outcomes@, self@));
        outcomes
    }
}

/// A tick leaves every entry that is not due exactly as it was, and reports
/// it as skipped, whatever happens to the other entries.
pub proof fn lemma_tick_skips_what_is_not_due(
    before: Seq<EntryView>,
    now: nat,
    outcomes: Seq<Outcome>,
    after: Seq<EntryView>,
    index: int,
)
    requires
        ticked(before, now, outcomes, after),
        0 <= index < before.len(),
        !before[index].due(now),
    ensures
        outcomes[index] is Skipped,
        after[index] == before[index],
{
    assert(before[index].follows(now, outcomes[index], after[index]));
}

} // verus!
