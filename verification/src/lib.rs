//! Health metrics computed over person records that are shared across a
//! language boundary.
//!
//! The records belong to the foreign side. This side reads them, through
//! accessors, and computes on what it read: whether a person is an adult,
//! the body-mass index and its band, a risk score with a recommendation, and
//! whether a contact record is complete. Nothing here changes a record.
//!
//! A text of a record is either a view into a string that the foreign side
//! owns, or a copy of its bytes; the computations cannot tell the two apart.
//! Either way the bytes may fail to be well-formed UTF-8, and each
//! computation says what stands in for a text that cannot be read.
//!
//! All arithmetic is exact. Heights are whole micrometres, weights whole
//! milligrams, a body-mass index is a ratio of two integers, and risk
//! weightings are whole tenths.
//!
//! - [`text`]: texts, and reading them.
//! - [`records`]: the person, contact and address records.
//! - [`bmi`]: the body-mass index and its bands.
//! - [`risk`]: risk weightings, scores and recommendations.
//! - [`health`]: the computations on whole records.

pub mod text;
pub mod records;
pub mod bmi;
pub mod risk;
pub mod health;
