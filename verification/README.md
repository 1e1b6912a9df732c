# Astro Alerts

Launch alerts in two programs: a data service that keeps a database of
upcoming launches in step with the Launch Library, publishes launch changes
and countdown alerts on Redis channels and serves the stored launches over
HTTP; and a bot that turns those messages into posts.

`src/` is the verified library (Verus):

- `model` — the launch records; times as `time::NetTime`.
- `time` — launch times as plain values; calendar work done by `chrono`.
- `text` — decimal numbers and ordinals.
- `alerts` — which countdown alert a launch is due at a given time.
- `sync` — which launches are tracked, stable sorting by NET, when a stored
  launch is replaced, and the steps of one synchronisation.
- `store` — replacing a stored launch, the purge cutoff, the library query.
- `auth` — the API key check.
- `posts` — the text of every post.
- `notify` — the steps of publishing one post.

`app/` holds the programs around it (`app api`, `app bot`): HTTP, MongoDB,
Redis, the posting platform, and the JSON form of the records.
