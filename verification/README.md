# StepheyBot Music

A self-hosted music service that streams through Navidrome, manages its
library with Lidarr, looks music up on MusicBrainz and queues downloads with
Transmission or qBittorrent.

- `src/` is the library, verified with Verus: the rules of the service (users,
  roles and access, settings, request and answer shapes of every outside
  service, search hits, download decisions, storage tiers, text formats) with
  their contracts and the laws they keep.
- `app/` is the web service around it: the Axum routes, the HTTP calls to the
  outside services and the JSON answers.
- `tests/` runs the library on concrete values.
