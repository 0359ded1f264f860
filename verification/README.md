# third_person_core

The game logic of a third person Bevy game, written in Verus and verified:

- `player::animation` — the animation state machine: which animation a motion
  sample asks for, requests that wait for a transition, locked animations and
  the animations they chain into.
- `ui::modal` — the stack of gameplay modals, and what opening and closing one
  asks of the game (pause, cursor, input context).
- `screens` — screen transitions on escape and back, pause and mute toggles,
  the title and credits screens, the shader compilation label.
- `scene::screen_fade` — the fade-out, hold, fade-in sequence.
- `game::mood` — which music plays for which mood, crossfades on mood changes,
  and the playlists that keep it going.
- `asset_loading` — the playlists (shuffle bags of `bevy_shuffle_bag`), the
  asset paths, and the queue of assets that become resources once loaded.
- `app_plan` — every plugin describes what it registers with the engine as
  plain data; the engine-side code carries it out in order.

`app/` holds the Bevy plumbing: systems and observers that read the ECS, call
the library and apply its decisions, and the parts that compute on floats
(movement, camera, timers, colours).
