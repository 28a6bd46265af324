# tacky-borders

The decisions behind coloured window borders on Windows, written in Verus.

- `src/` is the verified library. It works on plain values: window handles are integers, floating-point
  settings are bit patterns, and the answers of the operating system are arguments.
- `app/` is the program around it: windows, sockets, threads, files, drawing, and floating-point
  arithmetic.
- `tests/` runs the library on concrete values.

| module | what it decides |
| --- | --- |
| `config` | what a configuration switches on, how its file is found and read, how round corners are |
| `same` | when two configurations are equal |
| `colors` | what colour a text stands for, and what a brush is made of |
| `window_rules` | which rule applies to a window, and whether it gets a border |
| `borders` | which window has which border, and what to do to show or destroy borders |
| `komorebi`, `json` | what a notification of the komorebi window manager changes, and whom to tell |
| `iocp`, `winsock` | the order in which streams are accepted, read and handed on |
| `watch` | whether a change notification is about the configuration |
| `window` | what styles, titles and sizes of windows mean |
| `errors` | errors with a code, and the context around them |
| `anim_timer`, `auto_start`, `bezier`, `utils` | smaller decisions |
| `text`, `handles`, `float_bits` | what the others are built from |
