# valthrun

The decision logic of the Valthrun CS2 overlay controller and its bunny hop
helper, written in Verus with its contracts proved.

- `src/` is the verified library: input and hot keys (`keys`, `hotkey`,
  `key_names`, `input`, `key_toggle`), the trigger bots (`trigger`, `hacks`,
  `crosshair`), automatic strafing and the bunny hop loop (`strafe`, `bhop`),
  ESP configuration and player ESP decisions (`esp`, `esp_player`, `color`),
  the bomb, grenade, radar and other indicators (`bomb`, `grenade`,
  `web_radar`, `indicators`, `recoil`, `application`), process addresses and
  strings (`handle`, `text`), the settings defaults (`settings`), the cache
  (`cache`), and the map collision data (`kv3`, `rubikon`, `mesh`,
  `physics`).
- `tests/` runs the library on concrete values.
- `app/` is the program around it: command line, logging, the settings
  file, keyboard access through the GUI, and the floating point drawing of
  the overlay.

Values that are floating point numbers in the game (mesh coordinates, bounds)
are carried by the library as the bits of their floats; the drawing code
turns them back into floats.
