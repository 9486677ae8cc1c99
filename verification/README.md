# xr_input

The input of an OpenXR overlay: single, double and triple clicks, two hands with
controllers or bare, a pointer that follows the head or the eyes while there are no
hands, the bindings of controllers, and the list of devices with batteries.

`src/` is the library. It is written in Verus and decides everything from plain values:
what the runtime reported in a frame goes in, what the pointers, the notices and the log
hold afterwards comes out. Floating-point numbers are held by their bit patterns and only
compared; moments are nanoseconds of a monotonic clock.

| module | what it holds |
| --- | --- |
| `float_bits`, `moment`, `location`, `pointer`, `names` | the values that the rest works on |
| `click`, `presses` | multi-clicks, and what holds of whole histories of presses |
| `hand_source` | the actions of one hand and the pointer that they drive |
| `joints`, `hand_tracking` | bare hands and the gesture that switches them |
| `input_source`, `frame_laws` | all inputs of a frame, and what holds of every frame |
| `profiles` | interaction profiles and the bindings that they ask for |
| `devices` | the devices whose batteries are shown |

`app/` connects the library to OpenXR, to Monado and to the profile files, and does the
floating-point geometry. `tests/` runs the library on concrete values.
