//! Numbers and names that several modules share.

use vstd::prelude::*;

verus! {

/// The first level of every topic of the controller.
pub const MQTT_TOPIC: &'static str = "esp";

/// The first level of the topics under which Home Assistant looks for devices.
pub const DISCOVERY_PREFIX: &'static str = "homeassistant";

/// How many signals may wait for the sending task.
pub const CHANNEL_SIZE: usize = 8;

/// After how many seconds the state is published again, if nothing happens.
pub const IDLE_PERIOD: u64 = 60;

/// After how many milliseconds subscribing is tried again.
pub const SUBSCRIBE_DELAY: u64 = 500;

/// How many bytes of a firmware image are copied at a time.
pub const FIRMWARE_DOWNLOAD_CHUNK_SIZE: usize = 20480;

/// The size of a partition that an image is written to.
pub const FIRMWARE_MAX_SIZE: u64 = 0x1f0000;

/// What the smallest image holds besides the description of the firmware.
pub const FIRMWARE_MIN_EXTRA: u64 = 1024;

} // verus!
