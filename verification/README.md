# Wiedźmin: Szkoła Dzika

A small Witcher-inspired 2D RPG: Gerard z Rumii of the School of the Boar explores a map,
fights monsters turn by turn with swords, signs, potions and bombs, talks to villagers,
takes on quests and brews potions.

The rules of the game are a library verified with Verus; the window around it uses ggez.

## Layout

- `src/` — the verified library.
  - `numbers`, `text` — integer helpers (Rust's rounding toward zero) and decimal text.
  - `signs`, `inventory`, `monsters`, `player` — the pieces and their numbers.
  - `combat` — the player's move and the foe's turn, each stated as a relation between
    the fight, the player and the monster before and after.
  - `quests`, `dialogue`, `alchemy`, `world` — quest progress, conversations, recipes, the
    map and what stands on it.
  - `game_state` — the whole game: each key and each step as a relation between the state
    before and after.
  - `limits` — run-time checks that a key, a step or the status line can be handled
    without overflow, and the proof that modest games always can.
  - `content` — properties of the game's data: conversations, quests, the map and recipes
    fit together.
  - `laws` — properties that span several operations (a reward is paid once, a completed
    quest stays completed, health never rises above its maximum, and others).
- `tests/` — the library run on concrete games.
- `app/` — the ggez window: drawing, the keyboard, the camera and the step timer.

## Running

The library is checked with Verus; `app/main.rs` is the game's entry point.
