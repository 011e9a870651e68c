# darksaber

The verified core of the DarkSaber trainer for the Unity IL2CPP game *Echo*
(`echo.dll` plus its loader).

- `src/` is the library, checked by Verus:
  - `state.rs`: the trainer state (toggles, tuned values in fixed point,
    one-shot power requests), item presets, the buff catalog and the buffs
    captured from the game;
  - `menu.rs`, `labels.rs`, `menu_laws.rs`: the overlay menu as a state
    machine over key presses, the text of its rows, and its properties;
  - `hooks.rs`: what each game hook decides (the player's frame: stat
    overwrite with restore, the shield lock, the power requests carried out
    on the game thread, and the HP and shield locks after the game's own
    frame; buffs applied to the player; damage and max-HP results);
  - `install.rs`: the install report, the choice of the game image, C names,
    the start-up waits;
  - `dump.rs`: the text of the runtime metadata dump;
  - `loader.rs`: the loader's targets, C strings and error messages;
  - `text.rs`: decimal, hexadecimal and fixed-point rendering.
- `app/` is the Windows side: `DllMain`, the IL2CPP bindings, the detours,
  the GDI overlay window, the dump file and the injecting loader. It reads
  and writes game memory and calls the library for every decision.
- `tests/` runs the library on concrete values.
