# Rustic Yellow

Pokémon Yellow on modern computers: many of the game's routines are
written here in Rust against a model of the Game Boy machine (registers,
the address space, the stack), and the ROM routines they call are handed to
an interpreter as requests, in order. This crate holds no interpreter: the
routines record what they ask of the ROM. The library under `src/` is
written in Verus: each routine here states in its contract what it does to
the machine, and Verus proves it.

## Layout

- `src/cpu.rs`: the processor model. Registers, the 64 KiB address space as
  the bus shows it (work RAM and high RAM in `GameState`, the rest plain
  bytes), the stack, and the list of ROM routines the game hands to the
  interpreter.
- `src/game/`: the game's home routines and scripts (screen clearing, copies,
  text, palettes, front pictures, battle tiles, the overworld's redraws and
  collisions, events, far calls and predefined routines).
- `src/game_state/`, `src/save_state/`: the work RAM's named variables and
  the save file's layout: boxes, party, names, species, BCD money.
- `src/mbc5.rs`, `src/keypad.rs`, `src/serial.rs`, `src/saves.rs`,
  `src/gpu.rs`, `src/sound2.rs`: the cartridge's bank controller, the joypad,
  the serial port, the order of save files, the screen's tile layers, and
  the music table and Pikachu's cries.
- `app/`: the program around the library: reading the ROM and the save
  files, the frame timer and the keyboard. It has no window and no sound
  output.
- `tests/`: tests of the library on concrete values.

## Files the game needs

`pokeyellow.gbc` and `pokecrystal.gbc` (the Crystal ROM supplies updated
Pokémon pictures), the music in FLAC format under `music/`, and the battle
tile pictures under `gfx/`.
