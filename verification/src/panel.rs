use crate::acquisition::{AcquisitionLoop, LoopState, LoopView, DEFAULT_POLL_INTERVAL_MS};
use crate::reading::Reading;
use crate::refresh::{RefreshTimer, DEFAULT_REFRESH_INTERVAL_MS};
use crate::source::{DataSource, Descriptor};
use crate::stamp::TimestampStyle;
use crate::store::LatestValueStore;
use vstd::prelude::*;

verus! {

/// What startup configures: the two periods, which run independently of each
/// other, and the way timestamps are written.
#[derive(Clone, Copy, Debug, PartialEq, Eq, Structural)]
pub struct Settings {
    /// Milliseconds between two acquisition attempts.
    pub poll_interval_ms: u64,
    /// Milliseconds between two display refreshes.
    pub refresh_interval_ms: u64,
    pub style: TimestampStyle,
}

impl Default for Settings {
    fn default() -> (settings: Self)
        ensures
            settings == (Settings {
                poll_interval_ms: DEFAULT_POLL_INTERVAL_MS,
                refresh_interval_ms: DEFAULT_REFRESH_INTERVAL_MS,
                style: TimestampStyle::ElapsedSeconds,
            }),
    {
        Settings {
            poll_interval_ms: DEFAULT_POLL_INTERVAL_MS,
            refresh_interval_ms: DEFAULT_REFRESH_INTERVAL_MS,
            style: TimestampStyle::ElapsedSeconds,
        }
    }
}

/// The two tasks of a running panel and what they share.
#[verifier::reject_recursive_types(M)]
pub struct Panel<M> {
    /// The producer, to be driven on a thread of its own.
    pub acquisition: AcquisitionLoop<M>,
    /// The consumer, to be fired by the display's event loop.
    pub timer: RefreshTimer<M>,
    /// The source's identity, asked for once here and not again.
    pub identity: Option<Descriptor>,
}

impl<M> Panel<M> {
    /// Wires a panel around `source`: one empty store, shared by an
    /// acquisition loop that is about to poll and a refresh timer, neither of
    /// which owns the other.
    pub fn start(source: DataSource<M>, settings: Settings) -> (panel: Self)
        ensures
            panel.acquisition@ == (LoopView {
                source: source@,
                poll_interval_ms: settings.poll_interval_ms,
                state: LoopState::Polling,
                written: Seq::empty(),
            }),
            panel.timer.store() == panel.acquisition.store(),
            panel.timer.interval() == settings.refresh_interval_ms,
            panel.timer.style() == settings.style,
            panel.timer.store().may_be_empty(),
            forall|reading: Reading<M>| panel.timer.store().admits(reading),
            match panel.identity {
                Some(descriptor) => source@.identity() == Some(descriptor@),
                None => source@.identity() is None,
            },
    {
        let identity = source.identify();
        let store = LatestValueStore::new();
        let timer = RefreshTimer::new(store.clone(), settings.refresh_interval_ms, settings.style);
        let acquisition = AcquisitionLoop::new(source, store, settings.poll_interval_ms);
        Panel { acquisition, timer, identity }
    }
}

} // verus!
