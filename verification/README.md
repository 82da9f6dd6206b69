# demo

A side-scrolling roguelite shooter with three playable characters, a lobby,
rooms of robots and a boss. The game rules are a Verus-verified library; the
Bevy program around them draws, plays sounds, moves bodies and reads input.

- `src/` — the verified rules: clocks, animations, the player's movement and
  skills, weapons, robots, the boss, rooms and their queue, rewards, the run's
  record, screens and menus, sounds. Every public function carries a contract
  over spec functions; the `lemma_*` proof functions state laws that hold
  across calls (door and chest cycles, the boss's charge cycle, bounded
  charges and turret counts, the room queue returning to its start, ...).
- `tests/` — concrete scenarios for the rules.
- `app/` — the Bevy program: plugins, entities, physics, textures, audio and
  user interface, calling the library for every decision.

Random draws come from `rand`, through the single trusted function
`rng::random_in`, whose contract only bounds the number drawn. Where a rule
rests on draws, a verified function takes the draws as arguments and pins
the outcome for each of them (`buff::offers_from_draws`,
`room::queue_for_draws`, `audio::hurt_voice`, ...); the function that draws
hands them over.

Some of the laws the library proves:

- a drone fires exactly four volleys and leaves 34 frames after its spawn
  (`animation::lemma_drone_life`);
- the clearing sound of a room plays at most once
  (`room::lemma_clear_sound_plays_once`);
- the door only moves along locked, ready, opening, open, closing
  (`room::lemma_door_cycle`), and a chest opens its reward menu once
  (`room::lemma_chest_opens_once`);
- Arisu's charge stays within 1 to 120 (`gun::handle_gun_fire`).
