//! The decisions of a small window inspector: which window is selected, its
//! rectangle as position and size, its log, and a numeric field edited as text.
pub mod numeral;
pub mod validating_value;
pub mod inspector;
