# warmlitectl

The verified core of `warmlitectl`, a shell tool for the WarmLite monitor
utility: it reads monitor brightness, sets or nudges it, and applies colour
scenes.

- `src/` is the library, checked by Verus: command line parsing (`cli`),
  decimal numbers (`number`), monitor selection and brightness arithmetic
  (`monitor`), the steps of `brightness` and `scene` between device calls
  (`session`), notification requests (`notify`), error texts (`error`),
  logging defaults (`logging`) and the character-level helpers they use (`text`).
- `app/` is the program around it: it reads the arguments, talks to the
  monitors, prints, and runs `notify-send`.
- `tests/` exercise the library on concrete values.
