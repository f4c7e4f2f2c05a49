//! Telemetry overlay core: snapshot construction, frame-rate bookkeeping,
//! hotkey-driven visibility and the per-frame scheduling decisions of a
//! translucent performance panel.

pub mod clock;
pub mod collector;
pub mod error;
pub mod fps;
pub mod hotkey;
pub mod overlay;
pub mod percentage;
pub mod providers;
pub mod stats;
pub mod stats_app;
