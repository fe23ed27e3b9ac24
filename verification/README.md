# bevy_hookup_core

Syncing Bevy entities, components and events between clients over
arbitrary transports.

- `src/` is the library, written and proved with Verus: list filters and
  how they merge, the jitter buffer for received components, the record of
  seen events that drops relayed duplicates, the bookkeeping of which
  connections a shared entity or component is on, the decisions taken for
  received messages, and the session types.
- `tests/` runs the library on concrete values.
- `app/` is the Bevy side: components and resources wrapping the library's
  types, the transport with its serialisation, and the plugins whose
  systems call the library every tick.
