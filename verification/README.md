# winderoo_firmware

The logic of the Winderoo watch-winder firmware as a Verus-verified library.

- `src/` — the verified library:
  - `time`, `model`, `settings`, `api`: the domain model, the settings file's
    fields and their conversion to the runtime state, and the HTTP API's
    payloads;
  - `controller`: the winding state machine (timer starts, routine progress,
    direction changes and rest pauses, power, updates, reset);
  - `home_assistant`: MQTT topics, command parsing and application, discovery
    and state messages;
  - `wifi_portal`, `oled_ui`, `hardware`, `esp32`: the captive portal's form
    and JSON parsing, screen geometry, LED programs and motor duties, and the
    ESP32 runtime's request and asset decisions;
  - `embassy`: the async runtime's pieces — SNTP packets, shared state and
    signals, the Wi-Fi provisioning state machine, the captive portal's
    wildcard DNS responder, the software clock, driver adapters, runtime
    commands and the controller task's event queue, settings framing in
    flash, HTTP handlers.
- `tests/`: tests of the library on concrete values.
- `app/`: ordinary Rust around the library: JSON encodings (serde), a UDP
  SNTP client, a flash settings store, and blocking drivers of the
  controller, system and Wi-Fi tasks.

UTC offsets are kept in whole seconds in the library; the JSON documents
carry them as fractional hours, converted in `app/`.
