//! Groups of CPU performance counters on Linux.
//!
//! A [`CounterGroup`] opens one counter per [`EventSpec`], in the order given,
//! all inside one kernel counter group, so that they are enabled, disabled and
//! read together. Readings come back in the caller's order. [`measure`] wraps a
//! unit of work between enabling and disabling a group.
mod error;
mod events;
mod group;
mod measure;
mod perf;
mod reading;

pub use error::{attach_error_of, classify_attach_error, is_attach_error, CounterError};
pub use group::{member_ids, reading_for, CounterGroup};
pub use measure::{measure, measure_group, MeasureError};
pub use events::{Cache, CacheId, CacheOp, CacheResult, EventSpec, Hardware, Raw};
pub use reading::{
    covers, distinct_ids, find_value, project_reading, reading_ignores_entry_order,
    reading_in_counter_order, reading_of, value_for,
};
