# SpotUI

A standalone music client for a small touch screen player: a playback daemon on top of
librespot, and an interface that draws straight to the framebuffer.

- `src/` is the library. It holds what the two programs decide and compute, with
  contracts that Verus proves.
  - `text`, `media`: text primitives, media ids and URIs.
  - `daemon/`: the play order and the queue, the commands of the control protocol, loads
    of which the latest wins, how the daemon follows the player, and what it answers to
    browse commands.
  - `ui/`: what the daemon's answers mean, settings, what the files of the system say,
    what a touch does, what time does, and everything that is drawn, as a list of shapes.
  - `protocol`: laws that tie the two together; what one side writes, the other reads.
- `tests/` runs the library.
- `app/` is the programs around it: sockets, the session and the player, input devices,
  and the framebuffer.
