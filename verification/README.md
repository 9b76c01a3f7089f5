# chaplin-click

A bridge from Chaplin, which reads lips, to screen-click, which clicks on the screen element
that it is told of. Chaplin types what it has read on a virtual keyboard; the bridge captures
that keyboard, gathers the characters into sentences, and sends each sentence to screen-click
as a line.

- `src/` holds what the bridge decides, with contracts that Verus proves.
  - `keys`, `input`, `sentences`: from input events to characters to sentences
  - `dictation`: what the gathering of sentences promises
  - `devices`, `watch`: which devices there are, and waiting for a new one
  - `launch`, `children`: what the child processes are started with, and stopping them
  - `manual`: the fallback mode, in which targets are typed into the terminal
  - `session`: the course of a session, from the first look at the devices to the end
  - `course`: what every session keeps to
  - `errors`, `status`, `text`: what is said, and questions asked of texts
- `app/` is the program: it opens devices, runs the child processes and writes lines, as the
  session asks.
- `tests/` runs the library on given inputs.

A session notes which input devices are there, starts Chaplin, waits for the virtual keyboard
that Chaplin makes, and then starts screen-click. Key events are read from that virtual keyboard
only. A sentence ends with `.`, `?` or `!` and a space, or with Enter. If no new device shows up
within a minute, or the new one is no virtual keyboard, the program takes targets from the
terminal, one per line. When Chaplin exits, and on SIGINT and SIGTERM, whatever was started is
stopped: each child is sent SIGTERM, and killed only if it does not end in time.
