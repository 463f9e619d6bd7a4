# mac_window

The decisions that a macOS application window takes, as verified functions, and the AppKit code
that carries them out.

`src/` is the library, verified with Verus. A function there goes from plain values to plain
values: what AppKit reported goes in, what to tell AppKit next comes out. Native objects, window
handles and callbacks are numbers that the host chose. Coordinates are fixed-point numbers with 32
fractional bits, and sums of them are rounded as single and double precision round them; the host
converts coordinates from and to floating-point numbers.

| module | what it decides |
| --- | --- |
| `keyboard`, `pointer` | what a key press or a mouse event does, step by step |
| `text_range`, `strings` | ranges and texts of the text input client |
| `drop_target`, `external_paths` | how drags over the window are answered |
| `external_drag`, `file_paths`, `drag_payload`, `drag_bounds` | drags that leave the window |
| `opening`, `style`, `tabs` | how a window opens, and as what |
| `fullscreen`, `traffic_light`, `titlebar`, `layers`, `cursor` | how the window looks |
| `frames` | when frames are drawn |
| `prompt` | alerts |
| `callbacks`, `window` | what a window remembers, and what becomes of it |
| `classes` | which message the Objective-C classes answer with what |
| `geometry`, `rounding` | coordinates |

Each module ends with the laws that hold of it, as proof functions.

`app/` sends the messages. It builds on macOS only.

`tests/` runs the library on examples.
