# void_sim

An n-body orbital sandbox: place planets, giants, stars, asteroid swarms
and whole solar systems with the mouse, watch them orbit, collide, merge
and shatter.

- `src/` is the verified library (Verus): body and placement kinds, which
  bodies each placement and each new solar system adds, the
  control panel's state machine and button panel, the bounded trail of
  past positions, and the collision pass that pairs touching bodies and
  picks how each collision resolves, the merge-only pass that walks the
  contact tests one at a time, and the key bindings. Laws about these are public proof
  functions beside the code they speak of.
- `app/` is the program around it (macroquad window, input, drawing, and
  the floating-point physics: gravity, integration, collision outcomes,
  camera). `--classic` runs the variant with thread-parallel gravity and
  merge-only collisions.
- `tests/` runs the library on concrete cases.
