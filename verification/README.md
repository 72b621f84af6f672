# tilewm

A small tiling window manager for X11, split in two:

- `src/` is the verified core: the three layouts (`geometry`), the plain
  forms of the X11 requests and events it decides on together with the
  trusted call into `x11rb` (`x11`), the manager's state and its
  answer to every event (`wm`), and properties spanning several events
  (`laws`). Each handler returns the steps to take in order: requests to
  send, and the changes to the state that follow them.
- `app/` holds the connection to the X server, the event loop, and the
  execution of those requests.
