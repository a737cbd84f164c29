# rs_matter_controller

The controller (commissioner) role of Matter, as a Verus-verified library.

- `src/` is the verified library:
  - `setup_code` decodes manual pairing codes (Verhoeff check digit from
    the `verhoeff` crate) and recognises QR payloads;
  - `ble` decodes the Matter service data of BLE adverts and filters scans;
  - `commissioner` is the commissioning state machine: the host performs
    the actions it asks for and reports their outcomes back;
  - `operational`, `network`, `store`, `error` hold the plain data types
    and the checks on them;
  - `fixed` gives contracts to the `heapless` buffers the logic uses.
- `app/` is the host side: async traits for the BLE adapter, credential
  provider, node store and Matter runtime; a BlueZ central (`bluer`); the
  OpenThread Border Router provider over D-Bus (`zbus`); and the async
  drivers that run the state machine.
- `tests/` exercises the library.
