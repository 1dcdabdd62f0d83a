# usbd_uac2

USB Audio Class 2.0 for [usb-device](https://crates.io/crates/usb-device),
with its logic proved by Verus.

## Layout

- `src/` — the verified library.
  - `constants.rs`: the class codes of the specification, each with its value
    and, for the request codes and clock source control selectors, the
    decoding of a raw code.
  - `cursor.rs`: a cursor over a byte slice; what every write leaves in the
    buffer and at which position, and the laws that tie successive writes
    together.
  - `descriptors.rs`: the class-specific descriptors, their bytes, and the
    AC interface header whose wTotalLength counts the bytes that follow it.
  - `class.rs`: range entries, isochronous feedback values, terminal
    configurations and the values derived from a clock and a link speed.
  - `control.rs`: the decisions of the class driver: what a control request
    asks for, the bytes of each answer, which endpoint events matter, and
    the configuration descriptors in the order they are written.
  - `bytes.rs`: little-endian encoding, through `byteorder`.
- `app/` — the `usb-device` class driver: it allocates interfaces and
  endpoints, writes the records that `control.rs` lists, and carries out the
  actions that the library decides. The callback traits that an audio
  function implements live there.
- `tests/` — the descriptor tests and tests of the library's contracts on
  concrete values.
