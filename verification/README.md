# picoha-io

Firmware logic of a Raspberry Pi Pico that exposes its I/O pins to a host
over a USB serial link, one JSON object per line.

- `src/` is the verified library: the command protocol and the pin-mode
  state it keeps (`protocol`), the decimal rendering of numbers (`decimal`),
  the bounded message text (`text`), the framing of output lines, the panic
  report and the button report (`framing`), the receive buffer
  (`serial_rx`), and board bring-up decisions (`board`).
- `app/` is the firmware around it: hardware set-up, the USB device, the
  pins, JSON encoding and decoding, and the handlers.
- `tests/` runs the library on concrete values.
