# hid-rgb-ctl

Control RGB lighting on Linux via standard HID protocols, with the logic verified by Verus:

- **HID LampArray** (Usage Page 0x59): Dynamic Lighting devices, with per-lamp colors and
  autonomous mode
- **HID LED Page RGB** (Usage Page 0x08, Usage 0x52): legacy RGB LEDs

## Layout

- `src/` is the verified library. It performs no input or output.
  - `descriptor` parses report descriptors and finds the devices that they describe.
  - `device` holds the two kinds of devices. What is done with a device is a session: it says
    which device access is due, takes what the access returned, and ends with a result.
    `device/conversation.rs` states what whole sessions bring about.
  - `cli` reads the command line, with `lexopt`, and decides what a command does and says.
- `app/` is the program: it lists sysfs, accesses `/dev/hidraw*`, and prints.
- `tests/` runs the library.

## What is trusted

- `cli/lexer.rs`: the calls into `lexopt`, and the conversion of arguments into text
- `cli/color.rs`: `str::to_lowercase`

All counts of bits in a descriptor are kept modulo 2^32.

## Usage

```sh
hid-rgb-ctl list
hid-rgb-ctl get
hid-rgb-ctl set red
hid-rgb-ctl set 255 165 0
hid-rgb-ctl set ff6400 -i 128
hid-rgb-ctl set-lamp 0:red 1:00ff00 2:blue
hid-rgb-ctl -p /dev/hidraw1 set blue
hid-rgb-ctl auto off
```
