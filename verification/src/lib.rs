//! Coordination core of a networked camera node: the event stream that feeds
//! the status panel, the accounting around the single camera, the HTTP frame
//! reply and the supervisor that keeps the radio link alive.

pub mod address;
pub mod arbiter;
pub mod camera;
pub mod channel;
pub mod decimal;
pub mod display;
pub mod event;
pub mod harness;
pub mod http;
pub mod link_laws;
pub mod notices;
pub mod observer;
pub mod ordering;
pub mod sensor;
pub mod status;
pub mod supervisor;
pub mod wifi;
pub mod window;
