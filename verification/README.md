# horizon

The logic of the Horizon game server and its plugins, as a Verus library
whose functions carry contracts that Verus proves.

- `src/` — the verified library:
  - `assoc.rs`: association lists read as finite maps (first entry wins).
  - `recipe.rs`, `recipe_book.rs`, `inventory.rs`, `recipe_smith.rs`: recipes,
    crafting, player inventories, storage containers and the RecipeSmith
    plugin with its remote calls.
  - `plugin_manager.rs`: loaded plugins by name, with their states.
  - `chronos.rs`: the game clock.
  - `collision.rs`: trigger spheres and who is inside them.
  - `chat.rs`: answers to whispers, broadcasts and calls for help.
  - `load_times.rs`: plugin load times summed over the server's threads.
  - `objects.rs`, `config.rs`, `text.rs`, `ids.rs`: world objects, server
    configuration, text helpers and random identifiers.
  - `plugins/`: the game's plugins (greeters, Horizon Link, PebbleVault,
    Stars Beyond, the unit-test event simulation, ...).
  - `laws.rs`: properties that span several operations.
- `tests/` — tests of the library.
- `app/` — the server program: configuration and recipe files, sockets,
  the clock thread, sphere geometry and other floating-point parts.
