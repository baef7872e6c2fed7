//! Control logic of a remote-controlled fan: what the controller remembers of
//! the fan, the infrared codes it sends, and what it says and hears over MQTT.
//!
//! Nothing in here touches hardware or the network. Every function takes what
//! was read and returns what is to be done.

pub mod app;
pub mod buttons;
pub mod common;
pub mod countdown;
pub mod device;
pub mod discovery;
pub mod error;
pub mod history;
pub mod ir;
pub mod json;
pub mod mqtt;
pub mod ota;
pub mod publish;
pub mod reaction;
pub mod state;
pub mod subscribe;
pub mod text;
pub mod wifi;
