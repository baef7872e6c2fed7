# fan_remote

Control logic of a fan that is reached by infrared and told over MQTT what to
do, written in Verus: every function states what it does. Verus proves it of
all of them but the few wrappers that call another crate or the standard
library. What those return is believed, as the comment above each says.

- `src/state.rs`, `src/device.rs`: what the controller remembers of the fan,
  the key presses that it sends, and why the two stay in step.
- `src/ir.rs`: infrared codes in the Broadlink format.
- `src/app.rs`, `src/mqtt.rs`, `src/publish.rs`, `src/subscribe.rs`,
  `src/discovery.rs`: identity, requests, reports, subscriptions, and the
  announcement to Home Assistant.
- `src/buttons.rs`, `src/countdown.rs`, `src/ota.rs`, `src/wifi.rs`: the
  decisions of the tasks around them.
- `src/history.rs`: what stays true whatever happens.
- `src/json.rs`, `src/text.rs`: the texts that are read and written.
- `app/`: the firmware for the ESP32-C6 that runs the library.
