use crate::reading::{Reading, Status};
use crate::stamp::{elapsed_text, stamp_string, stamp_text, TimestampStyle};
use crate::store::LatestValueStore;
use vstd::prelude::*;

verus! {

/// Time between two display refreshes unless configured otherwise.
pub const DEFAULT_REFRESH_INTERVAL_MS: u64 = 5000;

/// The record that the display renders.
#[derive(Debug, PartialEq)]
pub struct WeatherRecord<M> {
    pub temperature_celsius: M,
    pub humidity_percent: M,
    pub timestamp: String,
}

impl<M: Copy> Clone for WeatherRecord<M> {
    fn clone(&self) -> (copy: Self)
        ensures
            copy@ == self@,
    {
        WeatherRecord {
            temperature_celsius: self.temperature_celsius,
            humidity_percent: self.humidity_percent,
            timestamp: self.timestamp.clone(),
        }
    }
}

/// A [`WeatherRecord`] as contracts see it.
pub struct WeatherRecordView<M> {
    pub temperature_celsius: M,
    pub humidity_percent: M,
    pub timestamp: Seq<char>,
}

impl<M> View for WeatherRecord<M> {
    type V = WeatherRecordView<M>;

    open spec fn view(&self) -> WeatherRecordView<M> {
        WeatherRecordView {
            temperature_celsius: self.temperature_celsius,
            humidity_percent: self.humidity_percent,
            timestamp: self.timestamp@,
        }
    }
}

impl<M> WeatherRecord<M> {
    /// The record for `reading`, with its timestamp in calendar form where
    /// one is given and as elapsed seconds where none is.
    pub open spec fn of(reading: Reading<M>, calendar: Option<Seq<char>>) -> WeatherRecordView<M> {
        WeatherRecordView {
            temperature_celsius: reading.temperature,
            humidity_percent: reading.humidity,
            timestamp: stamp_text(reading.taken_at_ms, calendar),
        }
    }

    /// Builds the record for `reading`.
    pub fn stamped(reading: Reading<M>, calendar: Option<String>) -> (record: Self)
        ensures
            record@ == Self::of(
                reading,
                match calendar {
                    Some(calendar) => Some(calendar@),
                    None => None,
                },
            ),
    {
        WeatherRecord {
            temperature_celsius: reading.temperature,
            humidity_percent: reading.humidity,
            timestamp: stamp_string(reading.taken_at_ms, calendar),
        }
    }
}

impl<M> From<Reading<M>> for WeatherRecord<M> {
    /// The record for `reading` with its timestamp as elapsed seconds.
    fn from(reading: Reading<M>) -> (record: Self)
        ensures
            record@ == Self::of(reading, None),
    {
        Self::stamped(reading, None)
    }
}

impl<M> vstd::std_specs::convert::FromSpecImpl<Reading<M>> for WeatherRecord<M> {
    /// A record holds text, which contracts see only through its view, so
    /// the conversion is specified by the `ensures` of `from` and not here.
    open spec fn obeys_from_spec() -> bool {
        false
    }

    open spec fn from_spec(reading: Reading<M>) -> Self {
        arbitrary()
    }
}

/// What the display is told on a refresh.
#[derive(Debug, PartialEq)]
pub enum DisplayUpdate<M> {
    /// Show the error indicator: there is no reading, or none to be trusted.
    Unknown,
    /// Show this record and mark the source as working.
    Show(WeatherRecord<M>),
}

impl<M: Copy> Clone for DisplayUpdate<M> {
    fn clone(&self) -> (copy: Self)
        ensures
            copy@ == self@,
    {
        match self {
            DisplayUpdate::Unknown => DisplayUpdate::Unknown,
            DisplayUpdate::Show(record) => DisplayUpdate::Show(record.clone()),
        }
    }
}

/// A [`DisplayUpdate`] as contracts see it.
pub enum DisplayView<M> {
    Unknown,
    Show(WeatherRecordView<M>),
}

impl<M> View for DisplayUpdate<M> {
    type V = DisplayView<M>;

    open spec fn view(&self) -> DisplayView<M> {
        match *self {
            DisplayUpdate::Unknown => DisplayView::Unknown,
            DisplayUpdate::Show(record) => DisplayView::Show(record@),
        }
    }
}

impl<M> DisplayView<M> {
    /// The update for what was found in the store: the error indicator for an
    /// empty slot or a reading with status error, else the reading's record.
    pub open spec fn composed(
        seen: Option<Reading<M>>,
        calendar: Option<Seq<char>>,
    ) -> DisplayView<M> {
        match seen {
            Some(reading) if reading.status == Status::Valid => DisplayView::Show(
                WeatherRecord::of(reading, calendar),
            ),
            _ => DisplayView::Unknown,
        }
    }

    /// The update for what was found in the store, with the timestamp
    /// written in `style`.
    pub open spec fn rendered(seen: Option<Reading<M>>, style: TimestampStyle) -> DisplayView<M> {
        match seen {
            Some(reading) => Self::composed(seen, style.calendar(reading.taken_at_ms)),
            None => DisplayView::Unknown,
        }
    }

    /// The status indicator that goes with the update.
    pub open spec fn status(self) -> Status {
        match self {
            DisplayView::Unknown => Status::Error,
            DisplayView::Show(_) => Status::Valid,
        }
    }
}

impl<M> DisplayUpdate<M> {
    /// Decides what to show for `seen`, given the calendar form of its
    /// timestamp if one was made.
    pub fn compose(seen: Option<Reading<M>>, calendar: Option<String>) -> (update: Self)
        ensures
            update@ == DisplayView::composed(
                seen,
                match calendar {
                    Some(calendar) => Some(calendar@),
                    None => None,
                },
            ),
    {
        match seen {
            Some(reading) => {
                if reading.is_valid() {
                    DisplayUpdate::Show(WeatherRecord::stamped(reading, calendar))
                } else {
                    DisplayUpdate::Unknown
                }
            },
            None => DisplayUpdate::Unknown,
        }
    }

    /// Decides what to show for `seen`, with the timestamp written in `style`.
    pub fn render(seen: Option<Reading<M>>, style: TimestampStyle) -> (update: Self) where M: Copy
        ensures
            update@ == DisplayView::rendered(seen, style),
    {
        match seen {
            Some(reading) => Self::compose(seen, style.calendar_of(reading.taken_at_ms)),
            None => DisplayUpdate::Unknown,
        }
    }

    /// The status indicator that goes with this update.
    pub fn status(&self) -> (status: Status)
        ensures
            status == self@.status(),
    {
        match self {
            DisplayUpdate::Unknown => Status::Error,
            DisplayUpdate::Show(_) => Status::Valid,
        }
    }
}

/// The periodic task that refreshes the display: on each tick it reads the
/// store once and turns what it found into a display update. It acquires
/// nothing itself, and its caller fires it at the refresh interval.
#[verifier::reject_recursive_types(M)]
pub struct RefreshTimer<M> {
    store: LatestValueStore<Reading<M>>,
    refresh_interval_ms: u64,
    style: TimestampStyle,
}

impl<M> RefreshTimer<M> {
    /// The store that this timer reads.
    pub closed spec fn store(&self) -> LatestValueStore<Reading<M>> {
        self.store
    }

    /// The time between two ticks, in milliseconds.
    pub closed spec fn interval(&self) -> u64 {
        self.refresh_interval_ms
    }

    /// How this timer writes timestamps.
    pub closed spec fn style(&self) -> TimestampStyle {
        self.style
    }

    /// A timer that reads `store` every `refresh_interval_ms` milliseconds.
    pub fn new(
        store: LatestValueStore<Reading<M>>,
        refresh_interval_ms: u64,
        style: TimestampStyle,
    ) -> (timer: Self)
        ensures
            timer.store() == store,
            timer.interval() == refresh_interval_ms,
            timer.style() == style,
    {
        RefreshTimer { store, refresh_interval_ms, style }
    }

    /// The time between two ticks, in milliseconds.
    pub fn refresh_interval_ms(&self) -> (interval: u64)
        ensures
            interval == self.interval(),
    {
        self.refresh_interval_ms
    }

    /// One refresh: reads the store and says what to display. The update is
    /// the rendering of something the store may hold at that moment, the
    /// empty slot included.
    pub fn tick(&self) -> (update: DisplayUpdate<M>) where M: Copy
        ensures
            exists|seen: Option<Reading<M>>|
                (#[trigger] self.store().may_hold(seen)) && update@ == DisplayView::rendered(
                    seen,
                    self.style(),
                ),
    {
        let seen = self.store.get();
        let update = DisplayUpdate::render(seen, self.style);
        assert(self.store().may_hold(seen) && update@ == DisplayView::rendered(seen, self.style()));
        update
    }
}

/// An empty store shows as unknown, and so does a reading with status error,
/// in every style; a valid reading is shown with its own measurements.
pub proof fn lemma_rendering_cases<M>(seen: Option<Reading<M>>, style: TimestampStyle)
    ensures
        seen is None ==> DisplayView::rendered(seen, style) == DisplayView::<M>::Unknown,
        seen is Some && seen->0.status == Status::Error ==> DisplayView::rendered(seen, style)
            == DisplayView::<M>::Unknown,
        seen is Some && seen->0.status == Status::Valid ==> {
            &&& DisplayView::rendered(seen, style) matches DisplayView::Show(record)
            &&& record.temperature_celsius == seen->0.temperature
            &&& record.humidity_percent == seen->0.humidity
            &&& style == TimestampStyle::ElapsedSeconds ==> record.timestamp
                == elapsed_text(seen->0.taken_at_ms)
        },
        DisplayView::rendered(seen, style).status() == Status::Valid <==> (seen is Some
            && seen->0.status == Status::Valid),
{
}

} // verus!
