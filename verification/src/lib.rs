//! Conversion between the Hijri (Umm al-Qura) and the Gregorian calendar,
//! with day-level date arithmetic, over the Hijri years 1356 through 1500.

pub mod date;
pub mod digits;
pub mod duration;
pub mod error;
pub mod gregorian;
pub mod names;
pub mod pattern;
pub mod umalqura;

pub use date::HijriDate;
pub use date::valid_greorian_date;
pub use date::valid_hijri_date;
pub use duration::Duration;
pub use error::DateError;
