# Velo Player

A GTK4 + libadwaita Spotify client whose core is verified with Verus.

- `src/` — the verified library (`velo_player`):
  - `text` — decimal rendering, joining, Unicode trimming, path joining;
  - `types` — tracks, playlists, commands and events with their views;
  - `json`, `api` — Web API response readers and the paged listings;
  - `auth` — file locations, configuration, the cached OAuth token, and
    the connection and token-refresh state machines;
  - `startup` — bringing the controller up (config, cache, connection);
  - `controller` — the play queue, recently played tracks and what each
    command and player event turns into;
  - `ui` — labels, row highlighting and row clicks of the panels;
  - `update` — what the self-updater's `git` and `update.sh` runs mean.
- `app/` — the program around it: GTK window and panels, the librespot
  session and player, HTTP requests, files, and the update processes.
- `tests/` — tests of the library on concrete values.
