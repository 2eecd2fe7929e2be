//! A weather panel's core: a data-acquisition task and a display-refresh task
//! that run at their own pace and meet only in a shared latest-value store.
//!
//! - [`store`] holds the store, [`slot`] the single cell inside it.
//! - [`source`] holds the data sources: sensor, remote provider and mock.
//! - [`acquisition`] holds the producer, [`refresh`] the consumer.
//! - [`panel`] wires the two around one store at startup.
//! - [`reading`] and [`stamp`] hold the data and how its timestamps are shown.
//!
//! The library does no I/O and never sleeps. A caller drives the two tasks,
//! carries out the transactions that a sensor or a provider needs, and pushes
//! each display update to the screen.

pub mod acquisition;
pub mod panel;
pub mod reading;
pub mod refresh;
pub mod slot;
pub mod source;
pub mod stamp;
pub mod store;
