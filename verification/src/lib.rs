//! Driver core for a graphics tablet: decodes fixed-layout raw reports and
//! turns them into synthetic input events for a virtual pen and a virtual
//! keyboard. The decoding, button edge detection, coordinate transforms and
//! pressure normalization are verified; the host-side device registration and
//! event injection live outside this crate and consume the event lists that
//! [`dispatcher::DeviceDispatcher::dispatch`] returns.

pub mod events;
pub mod report;
pub mod buttons;
pub mod pipeline;
pub mod dispatcher;
pub mod laws;

pub use dispatcher::CycleEvents;
pub use dispatcher::DeviceDispatcher;
pub use events::EventKind;
pub use events::SyntheticEvent;
pub use report::RawDataReader;
