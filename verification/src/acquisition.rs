use crate::reading::{Measurement, Reading, Status};
use crate::slot::{lemma_slot_holds_last_published, slot_after};
use crate::source::{Acquisition, AcquisitionError, DataSource, DataSourceView};
use crate::store::LatestValueStore;
use vstd::prelude::*;

verus! {

/// Time between two acquisition attempts unless configured otherwise.
pub const DEFAULT_POLL_INTERVAL_MS: u64 = 2000;

/// Where the acquisition loop stands: asking the source, or waiting out the
/// poll interval. The loop has no final state.
#[derive(Clone, Copy, Debug, PartialEq, Eq, Structural)]
pub enum LoopState {
    Polling,
    Sleeping,
}

/// How one acquisition cycle ended.
#[derive(Debug, PartialEq)]
pub enum CycleReport<M> {
    /// The source delivered and this reading was published.
    Published(Reading<M>),
    /// The source failed; nothing was written and the error is only reported.
    Dropped(AcquisitionError),
}

impl<M: Copy> Copy for CycleReport<M> {

}

impl<M: Copy> Clone for CycleReport<M> {
    fn clone(&self) -> (copy: Self)
        ensures
            copy == *self,
    {
        *self
    }
}

/// One finished acquisition attempt: what the source returned, and when.
pub struct Attempt<M> {
    pub outcome: Result<Measurement<M>, AcquisitionError>,
    pub finished_at_ms: u64,
}

impl<M> Attempt<M> {
    /// The reading that this attempt publishes: one with status valid and the
    /// attempt's timestamp if the source delivered, none if it failed.
    pub open spec fn publication(self) -> Option<Reading<M>> {
        match self.outcome {
            Ok(measurement) => Some(Reading::accepted(measurement, self.finished_at_ms)),
            Err(_) => None,
        }
    }

    /// The report on this attempt.
    pub open spec fn report(self) -> CycleReport<M> {
        match self.outcome {
            Ok(measurement) => CycleReport::Published(
                Reading::accepted(measurement, self.finished_at_ms),
            ),
            Err(error) => CycleReport::Dropped(error),
        }
    }

    /// Everything written once this attempt is settled, given what was
    /// written before it.
    pub open spec fn written_after(self, written: Seq<Reading<M>>) -> Seq<Reading<M>> {
        match self.publication() {
            Some(reading) => written.push(reading),
            None => written,
        }
    }
}

/// Everything written once `attempts` are settled in order, given what was
/// written before them.
pub open spec fn written_after_all<M>(
    written: Seq<Reading<M>>,
    attempts: Seq<Attempt<M>>,
) -> Seq<Reading<M>>
    decreases attempts.len(),
{
    if attempts.len() == 0 {
        written
    } else {
        attempts.last().written_after(written_after_all(written, attempts.drop_last()))
    }
}

/// The task that keeps a store supplied: each cycle asks the source once,
/// publishes a success and drops a failure, then waits out the poll interval.
///
/// The loop itself never ends and never fails; its caller drives it, carrying
/// out the transactions a source asks for and sleeping between cycles.
#[verifier::reject_recursive_types(M)]
pub struct AcquisitionLoop<M> {
    source: DataSource<M>,
    outlet: Outlet<M>,
    poll_interval_ms: u64,
    state: LoopState,
}

/// The writing end of a store that takes every valid reading, with a record
/// of what went through it.
#[verifier::reject_recursive_types(M)]
struct Outlet<M> {
    store: LatestValueStore<Reading<M>>,
    written: Ghost<Seq<Reading<M>>>,
}

impl<M> Outlet<M> {
    #[verifier::type_invariant]
    spec fn takes_valid_readings(&self) -> bool {
        forall|reading: Reading<M>|
            reading.status == Status::Valid ==> #[trigger] self.store.admits(reading)
    }

    fn new(store: LatestValueStore<Reading<M>>) -> (outlet: Self)
        requires
            forall|reading: Reading<M>|
                reading.status == Status::Valid ==> #[trigger] store.admits(reading),
        ensures
            outlet.store == store,
            outlet.written@ == Seq::<Reading<M>>::empty(),
    {
        Outlet { store, written: Ghost(Seq::empty()) }
    }

    fn publish(&mut self, reading: Reading<M>)
        requires
            reading.status == Status::Valid,
        ensures
            final(self).store == old(self).store,
            final(self).written@ == old(self).written@.push(reading),
    {
        proof {
            use_type_invariant(&*self);
        }
        self.store.set(reading);
        self.written = Ghost(self.written@.push(reading));
    }
}

/// An [`AcquisitionLoop`] as contracts see it.
pub struct LoopView<M> {
    pub source: DataSourceView<M>,
    pub poll_interval_ms: u64,
    pub state: LoopState,
    /// Every reading this loop has set in its store, oldest first.
    pub written: Seq<Reading<M>>,
}

impl<M> LoopView<M> {
    /// The loop once its source has been asked for a reading.
    pub open spec fn begun(self) -> LoopView<M> {
        LoopView { source: self.source.asked(), state: LoopState::Polling, ..self }
    }

    /// The loop once `attempt` is settled.
    pub open spec fn finished(self, attempt: Attempt<M>) -> LoopView<M> {
        LoopView {
            state: LoopState::Sleeping,
            written: attempt.written_after(self.written),
            ..self
        }
    }

    /// What a store holds that only this loop writes to: the last reading it
    /// published, if any.
    pub open spec fn last_known_good(self) -> Option<Reading<M>> {
        slot_after(None, self.written)
    }
}

impl<M> View for AcquisitionLoop<M> {
    type V = LoopView<M>;

    closed spec fn view(&self) -> LoopView<M> {
        LoopView {
            source: self.source@,
            poll_interval_ms: self.poll_interval_ms,
            state: self.state,
            written: self.outlet.written@,
        }
    }
}

impl<M> AcquisitionLoop<M> {
    /// The store that this loop publishes to.
    pub closed spec fn store(&self) -> LatestValueStore<Reading<M>> {
        self.outlet.store
    }

    /// A loop that reads `source` and publishes to `store`, about to poll for
    /// the first time.
    pub fn new(
        source: DataSource<M>,
        store: LatestValueStore<Reading<M>>,
        poll_interval_ms: u64,
    ) -> (acquisition: Self)
        requires
            forall|reading: Reading<M>|
                reading.status == Status::Valid ==> #[trigger] store.admits(reading),
        ensures
            acquisition@ == (LoopView {
                source: source@,
                poll_interval_ms,
                state: LoopState::Polling,
                written: Seq::empty(),
            }),
            acquisition.store() == store,
    {
        AcquisitionLoop {
            source,
            outlet: Outlet::new(store),
            poll_interval_ms,
            state: LoopState::Polling,
        }
    }

    /// How long to sleep after each cycle, in milliseconds.
    pub fn poll_interval_ms(&self) -> (interval: u64)
        ensures
            interval == self@.poll_interval_ms,
    {
        self.poll_interval_ms
    }

    /// Where the loop stands.
    pub fn state(&self) -> (state: LoopState)
        ensures
            state == self@.state,
    {
        self.state
    }

    /// Starts a cycle: asks the source for one reading. Nothing is written yet.
    pub fn begin_cycle(&mut self) -> (answer: Acquisition<M>) where M: Copy
        ensures
            answer@ == old(self)@.source.answer(),
            final(self)@ == old(self)@.begun(),
            final(self).store() == old(self).store(),
    {
        self.state = LoopState::Polling;
        self.source.acquire()
    }

    /// Ends a cycle with the outcome of the acquisition, obtained at
    /// `now_ms` on the monotonic clock. A success is published as a valid
    /// reading stamped `now_ms`; a failure writes nothing, so that the store
    /// keeps its last good reading. Either way the loop then sleeps.
    pub fn finish_cycle(
        &mut self,
        outcome: Result<Measurement<M>, AcquisitionError>,
        now_ms: u64,
    ) -> (report: CycleReport<M>) where M: Copy
        ensures
            report == (Attempt { outcome, finished_at_ms: now_ms }).report(),
            final(self)@ == old(self)@.finished(Attempt { outcome, finished_at_ms: now_ms }),
            final(self).store() == old(self).store(),
    {
        self.state = LoopState::Sleeping;
        match outcome {
            Ok(measurement) => {
                let reading = Reading::from_measurement(measurement, now_ms);
                self.outlet.publish(reading);
                CycleReport::Published(reading)
            },
            Err(error) => CycleReport::Dropped(error),
        }
    }
}

/// While the source keeps failing, nothing is written: after any number of
/// failed attempts in a row the loop has written exactly what it had written
/// before, so the last known good reading, status included, stays what it was.
pub proof fn lemma_failures_write_nothing<M>(written: Seq<Reading<M>>, attempts: Seq<Attempt<M>>)
    requires
        forall|i: int| 0 <= i < attempts.len() ==> (#[trigger] attempts[i]).outcome is Err,
    ensures
        written_after_all(written, attempts) == written,
        slot_after(None, written_after_all(written, attempts)) == slot_after(None, written),
    decreases attempts.len(),
{
    if attempts.len() > 0 {
        let earlier = attempts.drop_last();
        assert forall|i: int| 0 <= i < earlier.len() implies (#[trigger] earlier[i]).outcome is Err by {
            assert(earlier[i] == attempts[i]);
        }
        lemma_failures_write_nothing(written, earlier);
        assert(attempts.last() == attempts[attempts.len() - 1]);
    }
}

/// Whatever the attempts, the loop only ever appends, and every reading it
/// appends is valid and is the publication of one of the attempts: no reading
/// is made up for a failure, and none is altered after it is written.
pub proof fn lemma_only_successes_are_written<M>(written: Seq<Reading<M>>, attempts: Seq<Attempt<M>>)
    ensures
        written_after_all(written, attempts).len() >= written.len(),
        written_after_all(written, attempts).subrange(0, written.len() as int) == written,
        forall|i: int|
            written.len() <= i < written_after_all(written, attempts).len() ==> {
                let reading = #[trigger] written_after_all(written, attempts)[i];
                &&& reading.status == Status::Valid
                &&& exists|k: int|
                    0 <= k < attempts.len() && (#[trigger] attempts[k]).publication() == Some(
                        reading,
                    )
            },
    decreases attempts.len(),
{
    let all = written_after_all(written, attempts);
    if attempts.len() == 0 {
        assert(all.subrange(0, written.len() as int) =~= written);
    } else {
        let earlier = attempts.drop_last();
        let before = written_after_all(written, earlier);
        let last = attempts.last();
        lemma_only_successes_are_written(written, earlier);
        assert(all.subrange(0, written.len() as int) =~= before.subrange(0, written.len() as int));
        assert forall|i: int| written.len() <= i < all.len() implies {
            let reading = #[trigger] all[i];
            &&& reading.status == Status::Valid
            &&& exists|k: int|
                0 <= k < attempts.len() && (#[trigger] attempts[k]).publication() == Some(reading)
        } by {
            let reading = all[i];
            if i < before.len() {
                assert(reading == before[i]);
                let k = choose|k: int|
                    0 <= k < earlier.len() && (#[trigger] earlier[k]).publication() == Some(reading);
                assert(attempts[k] == earlier[k]);
            } else {
                assert(attempts[attempts.len() - 1] == last);
                assert(last.publication() == Some(reading));
            }
        }
    }
}

/// What a cycle writes and reports depends on the attempt alone, not on which
/// kind of source the loop holds: two loops that have written the same
/// readings and settle the same attempt end up having written the same, and
/// both go to sleep.
pub proof fn lemma_source_kind_is_immaterial<M>(one: LoopView<M>, other: LoopView<M>, attempt: Attempt<M>)
    requires
        one.written == other.written,
    ensures
        one.finished(attempt).written == other.finished(attempt).written,
        one.finished(attempt).last_known_good() == other.finished(attempt).last_known_good(),
        one.finished(attempt).state == other.finished(attempt).state,
        one.finished(attempt).source == one.source,
        other.finished(attempt).source == other.source,
{
}

/// After a cycle the last known good reading is the new reading if the
/// source delivered, and the previous one if it failed.
pub proof fn lemma_cycle_keeps_or_replaces<M>(view: LoopView<M>, attempt: Attempt<M>)
    ensures
        attempt.outcome is Err ==> view.finished(attempt).last_known_good()
            == view.last_known_good(),
        attempt.outcome is Ok ==> view.finished(attempt).last_known_good()
            == attempt.publication(),
{
    lemma_slot_holds_last_published(None, view.finished(attempt).written);
}

} // verus!
