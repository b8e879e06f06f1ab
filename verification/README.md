# stremio_shell

The logic of a desktop shell for Stremio: a window in which the web interface
lies above the mpv player. The library in `src/` is written in Verus, and its
functions are proved to do what their contracts say. `app/` is the program
around it: threads, files, the network, libmpv, Steam, Discord and the window.

The library is a set of state machines and rules without input or output. A
state machine takes an event, changes its state, and leaves the actions that it
wants done in an outbox. `app/` carries the actions out and reports what came
of them.

| Module | What it is about |
| --- | --- |
| `text`, `number`, `json`, `encoding`, `urls` | texts, numbers, JSON, base64, percent-encoding and URLs |
| `playback`, `player_rules`, `player` | what is known of playback, the rules for properties and commands, the player's controller |
| `sync_protocol`, `lobby`, `steam_sync`, `steam_sync_unavailable` | links and messages of a watch party, the lobby, the runtime of hosts and guests |
| `media_id`, `intro_skip` | identifiers of videos, skipping of intros, recaps and outros |
| `config`, `shell_state`, `player_settings` | settings and the state that is kept between runs |
| `video_info`, `presence` | what is known of a title, and what Discord and the media overlay show |
| `requests`, `webview`, `window`, `mpv_hwnd` | requests of the web interface, keys and links, the modes of the window |
| `server`, `updater` | the streaming server's output, and updates |

Floating-point numbers appear in the library as their bits, with their order but
without arithmetic. Where a rule needs a sum or a difference, `app/` computes it
and hands it in.
