//! Status lights of a split keyboard: two WS2812 LEDs on each half.
//!
//! The library holds everything that the lights decide: what an event changes,
//! what each LED shows at a given time, how colors fade, what is sent to the
//! LEDs, when their power is on, and when the next refresh is due. It touches
//! no hardware but the system clock.

pub mod battery;
pub mod breath;
pub mod clock;
pub mod color;
pub mod effects;
pub mod event;
pub mod frame;
pub mod indicator;
pub mod laws;
pub mod polling;
pub mod update;

pub use event::{BleState, Event, Role};
pub use frame::PWM_TOP;
pub use indicator::Ws2812Indicator;
