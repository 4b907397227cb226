# ac_esp

The verified core of an AssaultCube (1.3.0.2, 32-bit) overlay with ESP boxes,
an aimbot and memory patches.

- `src/` is the library, verified with Verus:
  - `memory`: copies of process memory, little-endian decoding of `u32`,
    `i32` and NUL-terminated strings, and encoding of `i32` writes;
  - `text`: NUL-terminated byte buffers decoded as (lossy) UTF-8;
  - `model`: player entities and the fields read from them;
  - `modules`: finding a module's base address by name;
  - `scan`: one reader tick's decisions (addresses, patches, which entities
    count, may be aimed at or boxed, when to aim);
  - `overlay`: integer drawing geometry and GDI colours;
  - `state`: the feature switches and the attachment status;
  - `offset`: the game's addresses.
- `app/` is the Windows program around it: reading and writing the game's
  memory, the egui control panel, the GDI overlay window, and the
  floating-point projection and aiming maths.
- `tests/` exercises the library on concrete values.
