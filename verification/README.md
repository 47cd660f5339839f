# seraph

The platform layer of a windowing system for Windows: window styles and
regions, window modes and reshaping, the routing and answering of window
messages, sizing that keeps a window's aspect ratio, cursor shapes, raw
mouse input, and monitor bookkeeping.

- `src/` is the library, written in Verus. Every decision the platform layer
  takes is a function over plain values with a contract, and the properties
  that span several calls are proved as lemmas.
- `app/` is the program around it: the calls into the Windows API (through
  the `windows` crate), the message loop, the registry reads, and the parts
  that work in floating point. It hands the library plain values and carries
  out what the library decides.
- `tests/` runs the library on concrete values, and compares the library's
  copies of the system's constants with those of the `windows` crate.
