use vstd::prelude::*;

verus! {

/// What a data source reported about a reading.
#[derive(Clone, Copy, Debug, PartialEq, Eq, Structural)]
pub enum Status {
    Valid,
    Error,
}

/// One temperature and humidity sample, as a data source hands it over.
///
/// The numeric type `M` is the caller's choice; this library only carries the
/// values and never computes with them.
#[derive(Debug, PartialEq)]
pub struct Measurement<M> {
    pub temperature: M,
    pub humidity: M,
}

impl<M: Copy> Copy for Measurement<M> {

}

impl<M: Copy> Clone for Measurement<M> {
    fn clone(&self) -> (copy: Self)
        ensures
            copy == *self,
    {
        *self
    }
}

/// One complete measurement with the moment it was taken and its status.
///
/// A reading is a plain value. The store hands out copies, so a reading that
/// has been published never changes.
#[derive(Debug, PartialEq)]
pub struct Reading<M> {
    pub temperature: M,
    pub humidity: M,
    /// Milliseconds on the monotonic clock since the process started.
    pub taken_at_ms: u64,
    pub status: Status,
}

impl<M: Copy> Copy for Reading<M> {

}

impl<M: Copy> Clone for Reading<M> {
    fn clone(&self) -> (copy: Self)
        ensures
            copy == *self,
    {
        *self
    }
}

impl<M> Reading<M> {
    /// The reading that a successful acquisition at `taken_at_ms` yields.
    pub open spec fn accepted(measurement: Measurement<M>, taken_at_ms: u64) -> Self {
        Reading {
            temperature: measurement.temperature,
            humidity: measurement.humidity,
            taken_at_ms,
            status: Status::Valid,
        }
    }

    /// Builds the reading for a successful acquisition.
    pub fn from_measurement(measurement: Measurement<M>, taken_at_ms: u64) -> (reading: Self)
        ensures
            reading == Self::accepted(measurement, taken_at_ms),
    {
        Reading {
            temperature: measurement.temperature,
            humidity: measurement.humidity,
            taken_at_ms,
            status: Status::Valid,
        }
    }

    /// Whether the source vouched for this reading.
    pub fn is_valid(&self) -> (valid: bool)
        ensures
            valid <==> self.status == Status::Valid,
    {
        self.status == Status::Valid
    }
}

} // verus!
