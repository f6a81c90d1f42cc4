# gbcemu

A Game Boy Color machine whose behaviour is stated in contracts and proved.

- `src/` is the machine: the processor and its instructions (`cpu`, `instructions`,
  `registers`), the bus with its memories and ports (`memory`, `cartridge`, `timer`, `joypad`,
  `interrupts`), the picture unit (`ppu`), the sound unit (`apu`), the real time clock (`rtc`),
  the whole of it with its saved and persisted state (`gameboy`), and the decisions of a front
  end (`config`, `ui`, `video`).
- `app/` is a front end with a window, sound and files.
- `tests/` runs the machine on concrete values.

Each type has a model, either the type itself or what its view shows. A function on the model
says what an operation does (`CpuView::effect` for an instruction, `BusView::poked` for a write,
`PpuView::stepped` for the passing of time), and the executable functions are proved to do
just that. What holds across operations is stated by the proof functions whose names begin
with `law_`.

Two things are taken on trust: the reading of the host's clock, of which nothing is claimed,
and that `String::push` appends a character.
