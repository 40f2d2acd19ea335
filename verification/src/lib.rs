//! Scientific unit-conversion tables for energy and length units.
//!
//! Each conversion this crate offers is a linear scaling by a published
//! physical constant. The constants are kept exactly, as integer mantissas
//! paired with a power of ten, so every table entry can be pinned down
//! precisely in the contracts. Callers that need floating-point values
//! render a [`factor::Factor`] into their own numeric type and multiply.
//!
//! The tables themselves are pure, read-only dispatch on the unit name:
//! there is no global state, so concurrent lookups are trivially safe.

pub mod energy;
pub mod factor;
pub mod length;
