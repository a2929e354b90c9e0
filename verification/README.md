# ut61eplus-lib

Verified core of the desktop tools for UNI-T UT61E+ (and related) digital
multimeters, written in Verus.

- `src/` is the library, proved by Verus: remote command encoding, status
  flag and mode decoding, extraction of `AB CD` framed responses for the
  UT61E+, UT8803, UT171 and UT181A families (with proofs that a frame is
  found whole behind leading noise and that later bytes do not change a
  found frame), device family names, the scrolling graph history, and the
  text behind the display (status badges, specification lines, version
  label, `--device` option).
- `tests/` runs the library on concrete inputs.
- `app/` is the desktop window (eframe/egui), the HID transport (hidapi),
  the floating-point running statistics, and the error type with its
  user-facing messages.
