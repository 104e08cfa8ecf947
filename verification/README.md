# Status lights for the Cornix split keyboard

Each half of the keyboard has two WS2812 LEDs that tell about the battery, the
link between the halves, the Bluetooth link to the host and Caps Lock. This
crate decides what they show, and proves with Verus that it does so.

| LED | Half | Shows, most important first |
| --- | --- | --- |
| inner | both | charging: breathes green; solid green for 3 s once at 95 %, then nothing |
| inner | both | battery at 20 % or below: double-pulses red for 5 s, then 5 min of quiet |
| inner | central | other half: breathes blue for 60 s while missing, solid blue for 3 s once found |
| outer | central | host link: profile color for 3 s once connected or switched; else breathes it for 60 s while advertising |
| outer | central | Caps Lock: amber |
| outer | peripheral | other half: as on the central half's inner LED |

Profiles 1 to 5 are red, green, blue, magenta and cyan. Colors fade over at most
six frames. While a half sleeps its LEDs are dark; once they are, their power
rail is off.

## Layout

- `src/`: the verified library.
  - `event`, `indicator`: the state of the lights and what events change.
  - `effects`: what each LED shows at a given time.
  - `update`: one refresh, from the battery sample to the frame.
  - `polling`: when the next refresh is due.
  - `color`, `breath`, `battery`, `frame`, `clock`: the parts they are made of.
  - `laws`: what holds over several events and refreshes.
- `app/`: the firmware around it, for an nRF52840. A firmware build needs the
  keyboard's `keyboard.toml`, the chip's features of `rmk`, and a time driver for
  `embassy-time`.
- `tests/`: scenarios, some of them on a clock that the test drives.

Instants are tick counts. The tick rate is read from `embassy-time` once and
kept with the lights, so that nothing depends on how it is configured.

What is taken on trust stands in two places: `clock` reads the time and the tick
rate from `embassy-time`, and claims no more than the range of the rate; `event`
has `rmk` pick the Caps Lock bit out of the host's LED report.
