//! Verified core of the hardware-monitor dashboard: the bookkeeping behind
//! the stress-test controls and the live monitor plot, the card layout rows,
//! the navigation tabs, and the text shown for sensor readings.

pub mod app;
pub mod clock;
pub mod numtext;
pub mod sensor_data;
pub mod views;

pub use app::NavTab;
