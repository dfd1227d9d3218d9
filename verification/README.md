# rustle

The verified core of a desktop music player for a music streaming service.

- `src/` is the library, verified with Verus: the request encryption and
  request builders of the service's web API, the parsing of its JSON
  responses, navigation and route transitions, window visibility, the play
  queue, login and likes, the lyrics timeline and cache names, the glyph
  atlas packer and the store of pre-generated glyph bitmaps, page state and
  notifications.
- `tests/` runs the library on concrete values.
- `app/` is the thin shell around it: disk access for the lyrics cache, the
  process-wide glyph store, serde copies of the model types and a small
  command-line entry.
