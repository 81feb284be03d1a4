# active-lock

A screen locker that covers every monitor with a black overlay and unlocks when the
right password is typed; the system keeps running underneath.

- `src/` is the verified library: the lock-screen state machine (`lock_screen`), the
  password rules and bcrypt calls (`config`), monitor planning (`monitors`), pixel
  packing (`pixels`), the platform key filters and lockdown bookkeeping (`platform`),
  character classes and trimming (`text`), and properties spanning several steps
  (`laws`).
- `app/` is the program around it: winit windows, softbuffer surfaces, tiny-skia
  drawing, password prompts, the password file, and the macOS and Windows system calls.
