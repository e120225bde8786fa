# NovaForge game rules

The verified rules of NovaForge, a cooperative sci-fi space game in the
spirit of EVE Online, as a Verus library (`src/`), with the engine plugin and
scripts around it (`app/`).

- `src/faction.rs` — factions, display names, pirate groups, standing keys.
- `src/ship.rs` — ship classes, races and the ship catalogue (exact integer
  figures: agility in tenths, resistances in hundredths).
- `src/skills.rs` — the skill catalogue, skill-point requirements, the skill
  book (levels and training queue).
- `src/character.rs` — bloodlines and the starting skill book.
- `src/economy.rs` — the order book (posting, cancelling, best offers,
  immediate buys) over price keys, and the cargo inventory.
- `src/combat.rs`, `src/npc_ship.rs`, `src/player_ship.rs` — combat
  vocabulary, the NPC's state machine and the player's key handling.
- `src/assoc.rs`, `src/text.rs` — named-entry lists and name comparison.

Floating-point arithmetic (damage, hit points, standings, wallet, skill-point
accumulation, movement) lives in `app/`, which also converts prices to the
library's price keys and back.
