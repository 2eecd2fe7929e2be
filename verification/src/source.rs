use crate::reading::Measurement;
use vstd::prelude::*;
use vstd::string::*;

verus! {

/// Where a data source reports from.
#[derive(Debug, PartialEq, Eq)]
pub struct Descriptor {
    pub city_name: String,
    /// Latitude in millionths of a degree, north positive.
    pub latitude_microdeg: i32,
    /// Longitude in millionths of a degree, east positive.
    pub longitude_microdeg: i32,
}

/// A [`Descriptor`] as contracts see it.
pub struct DescriptorView {
    pub city_name: Seq<char>,
    pub latitude_microdeg: i32,
    pub longitude_microdeg: i32,
}

impl View for Descriptor {
    type V = DescriptorView;

    open spec fn view(&self) -> DescriptorView {
        DescriptorView {
            city_name: self.city_name@,
            latitude_microdeg: self.latitude_microdeg,
            longitude_microdeg: self.longitude_microdeg,
        }
    }
}

impl Clone for Descriptor {
    fn clone(&self) -> (copy: Self)
        ensures
            copy@ == self@,
    {
        Descriptor {
            city_name: self.city_name.clone(),
            latitude_microdeg: self.latitude_microdeg,
            longitude_microdeg: self.longitude_microdeg,
        }
    }
}

/// The descriptor that a mock source reports.
pub open spec fn placeholder_descriptor() -> DescriptorView {
    DescriptorView { city_name: "Nowhere"@, latitude_microdeg: 0, longitude_microdeg: 0 }
}

/// Why a hardware sensor transaction failed.
#[derive(Clone, Copy, Debug, PartialEq, Eq, Structural)]
pub enum SensorError {
    ChecksumMismatch,
    TimingViolation,
    NoResponse,
}

/// Why a request to a remote weather provider failed.
#[derive(Clone, Copy, Debug, PartialEq, Eq, Structural)]
pub enum ProviderError {
    Network,
    Unauthorized,
}

/// A failed acquisition. Every such failure is transient: the reading is
/// dropped and the next cycle tries again.
#[derive(Clone, Copy, Debug, PartialEq, Eq, Structural)]
pub enum AcquisitionError {
    Sensor(SensorError),
    Provider(ProviderError),
}

/// Outside work that one acquisition needs, for the caller to carry out.
#[derive(Debug, PartialEq, Eq)]
pub enum Transaction {
    /// One blocking protocol transaction with the sensor on `pin`.
    ReadSensor { pin: u32 },
    /// One request to the weather provider for `location`.
    FetchWeather { location: Descriptor, api_key: String },
}

/// A [`Transaction`] as contracts see it.
pub enum TransactionView {
    ReadSensor { pin: u32 },
    FetchWeather { location: DescriptorView, api_key: Seq<char> },
}

impl View for Transaction {
    type V = TransactionView;

    open spec fn view(&self) -> TransactionView {
        match *self {
            Transaction::ReadSensor { pin } => TransactionView::ReadSensor { pin },
            Transaction::FetchWeather { location, api_key } => TransactionView::FetchWeather {
                location: location@,
                api_key: api_key@,
            },
        }
    }
}

/// What a source answers when asked for one reading.
#[derive(Debug, PartialEq)]
pub enum Acquisition<M> {
    /// The source produced the sample itself.
    Ready(Measurement<M>),
    /// The caller must carry out the transaction and report its outcome.
    Pending(Transaction),
}

/// An [`Acquisition`] as contracts see it.
pub enum AcquisitionView<M> {
    Ready(Measurement<M>),
    Pending(TransactionView),
}

impl<M> View for Acquisition<M> {
    type V = AcquisitionView<M>;

    open spec fn view(&self) -> AcquisitionView<M> {
        match *self {
            Acquisition::Ready(sample) => AcquisitionView::Ready(sample),
            Acquisition::Pending(transaction) => AcquisitionView::Pending(transaction@),
        }
    }
}

/// A deterministic source of synthetic samples: it replays a fixed, non-empty
/// list in order, over and over, and never fails.
pub struct MockSource<M> {
    samples: Vec<Measurement<M>>,
    cursor: usize,
}

/// A [`MockSource`] as contracts see it.
pub struct MockView<M> {
    pub samples: Seq<Measurement<M>>,
    /// Index into `samples` of the sample that comes next.
    pub cursor: int,
}

impl<M> MockView<M> {
    /// A mock source always has a next sample.
    pub open spec fn wf(self) -> bool {
        0 <= self.cursor < self.samples.len()
    }

    /// The sample that the next acquisition yields.
    pub open spec fn next(self) -> Measurement<M> {
        self.samples[self.cursor]
    }

    /// The source once that sample has been handed out.
    pub open spec fn advanced(self) -> MockView<M> {
        MockView { samples: self.samples, cursor: (self.cursor + 1) % (self.samples.len() as int) }
    }

    /// The source after `count` acquisitions.
    pub open spec fn advanced_by(self, count: nat) -> MockView<M>
        decreases count,
    {
        if count == 0 {
            self
        } else {
            self.advanced_by((count - 1) as nat).advanced()
        }
    }
}

impl<M> View for MockSource<M> {
    type V = MockView<M>;

    closed spec fn view(&self) -> MockView<M> {
        MockView { samples: self.samples@, cursor: self.cursor as int }
    }
}

impl<M> MockSource<M> {
    #[verifier::type_invariant]
    spec fn has_next(&self) -> bool {
        self.cursor < self.samples.len()
    }

    /// A source that yields `sample` every time.
    pub fn fixed(sample: Measurement<M>) -> (source: Self)
        ensures
            source@.wf(),
            source@ == (MockView { samples: seq![sample], cursor: 0 }),
    {
        let mut samples = Vec::new();
        samples.push(sample);
        assert(samples@ =~= seq![sample]);
        MockSource { samples, cursor: 0 }
    }

    /// A source that yields `samples` in order and starts over after the
    /// last; `None` if there is no sample to yield.
    pub fn cycling(samples: Vec<Measurement<M>>) -> (source: Option<Self>)
        ensures
            samples.len() == 0 <==> source is None,
            source matches Some(mock) ==> mock@.wf() && mock@ == (MockView {
                samples: samples@,
                cursor: 0,
            }),
    {
        if samples.len() == 0 {
            None
        } else {
            Some(MockSource { samples, cursor: 0 })
        }
    }

    /// The next sample; the source moves on to the one after it.
    pub fn next_sample(&mut self) -> (sample: Measurement<M>) where M: Copy
        ensures
            old(self)@.wf(),
            sample == old(self)@.next(),
            final(self)@ == old(self)@.advanced(),
            final(self)@.wf(),
    {
        proof {
            use_type_invariant(&*self);
        }
        let sample = self.samples[self.cursor];
        let next = if self.cursor + 1 == self.samples.len() {
            0
        } else {
            self.cursor + 1
        };
        proof {
            let len = self.samples.len() as int;
            if self.cursor + 1 == len {
                vstd::arithmetic::div_mod::lemma_mod_self_0(len);
            } else {
                vstd::arithmetic::div_mod::lemma_small_mod((self.cursor + 1) as nat, len as nat);
            }
        }
        self.cursor = next;
        sample
    }
}

/// A producer of readings: a sensor on a pin, a remote weather provider, or a
/// mock. Callers ask any of them for a reading and for its identity in the
/// same way and need not know which one they hold.
pub enum DataSource<M> {
    /// A sensor attached to a GPIO pin. It has no location to report.
    Hardware { pin: u32 },
    /// A weather provider queried over the network for a configured location.
    Remote { location: Descriptor, api_key: String },
    /// Synthetic samples, for work offline or without credentials.
    Mock(MockSource<M>),
}

/// A [`DataSource`] as contracts see it.
pub enum DataSourceView<M> {
    Hardware { pin: u32 },
    Remote { location: DescriptorView, api_key: Seq<char> },
    Mock(MockView<M>),
}

impl<M> View for DataSource<M> {
    type V = DataSourceView<M>;

    open spec fn view(&self) -> DataSourceView<M> {
        match *self {
            DataSource::Hardware { pin } => DataSourceView::Hardware { pin },
            DataSource::Remote { location, api_key } => DataSourceView::Remote {
                location: location@,
                api_key: api_key@,
            },
            DataSource::Mock(mock) => DataSourceView::Mock(mock@),
        }
    }
}

impl<M> DataSourceView<M> {
    /// A source can always be asked for a reading.
    pub open spec fn wf(self) -> bool {
        self matches DataSourceView::Mock(mock) ==> mock.wf()
    }

    /// The source's location, where it has one.
    pub open spec fn identity(self) -> Option<DescriptorView> {
        match self {
            DataSourceView::Hardware { .. } => None,
            DataSourceView::Remote { location, .. } => Some(location),
            DataSourceView::Mock(_) => Some(placeholder_descriptor()),
        }
    }

    /// What the source answers when asked for one reading.
    pub open spec fn answer(self) -> AcquisitionView<M> {
        match self {
            DataSourceView::Hardware { pin } => AcquisitionView::Pending(
                TransactionView::ReadSensor { pin },
            ),
            DataSourceView::Remote { location, api_key } => AcquisitionView::Pending(
                TransactionView::FetchWeather { location, api_key },
            ),
            DataSourceView::Mock(mock) => AcquisitionView::Ready(mock.next()),
        }
    }

    /// The source once it has given that answer.
    pub open spec fn asked(self) -> DataSourceView<M> {
        match self {
            DataSourceView::Mock(mock) => DataSourceView::Mock(mock.advanced()),
            _ => self,
        }
    }

    /// The source once it has been asked `count` times.
    pub open spec fn asked_times(self, count: nat) -> DataSourceView<M>
        decreases count,
    {
        if count == 0 {
            self
        } else {
            self.asked_times((count - 1) as nat).asked()
        }
    }

    /// The source that startup picks: the remote provider when an API key is
    /// configured, the fallback mock when none is.
    pub open spec fn selected(
        api_key: Option<Seq<char>>,
        location: DescriptorView,
        fallback: MockView<M>,
    ) -> DataSourceView<M> {
        match api_key {
            Some(api_key) => DataSourceView::Remote { location, api_key },
            None => DataSourceView::Mock(fallback),
        }
    }
}

impl<M> DataSource<M> {
    /// Picks the source at startup. A missing API key is no failure: the mock
    /// stands in for the provider.
    pub fn select(
        api_key: Option<String>,
        location: Descriptor,
        fallback: MockSource<M>,
    ) -> (source: Self)
        ensures
            source@ == DataSourceView::selected(
                match api_key {
                    Some(key) => Some(key@),
                    None => None,
                },
                location@,
                fallback@,
            ),
    {
        match api_key {
            Some(api_key) => DataSource::Remote { location, api_key },
            None => DataSource::Mock(fallback),
        }
    }

    /// The source's location descriptor, from local state alone. A hardware
    /// sensor has none.
    pub fn identify(&self) -> (descriptor: Option<Descriptor>)
        ensures
            match descriptor {
                Some(descriptor) => self@.identity() == Some(descriptor@),
                None => self@.identity() is None,
            },
    {
        match self {
            DataSource::Hardware { .. } => None,
            DataSource::Remote { location, .. } => Some(location.clone()),
            DataSource::Mock(_) => Some(
                Descriptor {
                    city_name: "Nowhere".to_owned(),
                    latitude_microdeg: 0,
                    longitude_microdeg: 0,
                },
            ),
        }
    }

    /// Asks the source for one reading. A mock hands over its next sample and
    /// so cannot fail; a sensor or a provider names the transaction that the
    /// caller has to carry out.
    pub fn acquire(&mut self) -> (answer: Acquisition<M>) where M: Copy
        ensures
            old(self)@.wf(),
            answer@ == old(self)@.answer(),
            final(self)@ == old(self)@.asked(),
            final(self)@.wf(),
    {
        match self {
            DataSource::Hardware { pin } => Acquisition::Pending(
                Transaction::ReadSensor { pin: *pin },
            ),
            DataSource::Remote { location, api_key } => Acquisition::Pending(
                Transaction::FetchWeather { location: location.clone(), api_key: api_key.clone() },
            ),
            DataSource::Mock(mock) => Acquisition::Ready(mock.next_sample()),
        }
    }
}

/// However often a source is asked for a reading, it stays the kind of
/// source it was, can be asked again, and reports the same identity.
pub proof fn lemma_asking_keeps_identity<M>(source: DataSourceView<M>, count: nat)
    requires
        source.wf(),
    ensures
        source.asked_times(count).wf(),
        source.asked_times(count).identity() == source.identity(),
        source is Mock <==> source.asked_times(count) is Mock,
        !(source is Mock) ==> source.asked_times(count) == source,
    decreases count,
{
    if count > 0 {
        let before = source.asked_times((count - 1) as nat);
        lemma_asking_keeps_identity(source, (count - 1) as nat);
        if let DataSourceView::Mock(mock) = before {
            lemma_mock_never_runs_dry(mock, 1);
            assert(mock.advanced_by(1) == mock.advanced_by(0).advanced());
        }
    }
}

/// A mock never fails: asked any number of times, it answers with a sample
/// each time, the one that its replay has reached, and it keeps reporting
/// the placeholder as its identity.
pub proof fn lemma_mock_always_answers<M>(mock: MockView<M>, count: nat)
    requires
        mock.wf(),
    ensures
        DataSourceView::Mock(mock).asked_times(count) == DataSourceView::Mock(
            mock.advanced_by(count),
        ),
        DataSourceView::Mock(mock).asked_times(count).answer() == AcquisitionView::Ready(
            mock.samples[(mock.cursor + count) % (mock.samples.len() as int)],
        ),
        DataSourceView::Mock(mock).asked_times(count).identity() == Some(placeholder_descriptor()),
    decreases count,
{
    lemma_mock_never_runs_dry(mock, count);
    if count > 0 {
        lemma_mock_always_answers(mock, (count - 1) as nat);
    }
}

/// Advancing keeps a mock source well formed and its samples untouched, so it
/// can be asked any number of times.
pub proof fn lemma_mock_never_runs_dry<M>(mock: MockView<M>, count: nat)
    requires
        mock.wf(),
    ensures
        mock.advanced_by(count).wf(),
        mock.advanced_by(count).samples == mock.samples,
        mock.advanced_by(count).cursor == (mock.cursor + count) % (mock.samples.len() as int),
    decreases count,
{
    let len = mock.samples.len() as int;
    if count == 0 {
        assert(mock.cursor % len == mock.cursor) by (nonlinear_arith)
            requires
                0 <= mock.cursor < len,
        ;
    } else {
        lemma_mock_never_runs_dry(mock, (count - 1) as nat);
        let previous = mock.cursor + count - 1;
        assert(((previous % len) + 1) % len == (previous + 1) % len) by (nonlinear_arith)
            requires
                len > 0,
        ;
    }
}

} // verus!
