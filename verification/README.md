# muxe broker

The broker behind terminal menus. A launcher asks it to open a menu in a pane of the terminal
multiplexer; the menu's UI attaches to it, invokes bindings through it, and is let go by it. The broker
owns what outlives a menu: the host's captures and pending panes, the work that was started, the
commands that it spawned. It can be replaced by a newer one while menus are in use.

## Layout

- `src/` is the library: the decisions of the broker, written in Verus and proved against contracts
  over mathematical models.
  - `gate`: which launch or session holds a modal scope.
  - `execution`: the work that was accepted, from its reservation to its end.
  - `cleanup`: panes and captures that the host has yet to confirm as closed.
  - `broker`: all of these together. `attach`, `stand`, `invoke`, `lifecycle`, `drain` and `child` hold
    its transitions, `laws` and `promises` what holds across them.
  - `activation`: handing a host over from one broker to the next, and recovering from a coordinator
    that goes away.
  - `connection`, `server`, `client`: what a peer may ask for, the life of the listener, and the other
    end of the socket.
  - `runtime`, `spawn`, `config`, `wire`, `command`, `condition`: endpoints, child arguments, the
    configuration and its views, commands, and the conditions of menu entries.
  - `table`, `textmap`, `text`, `ids`, `time`, `path`, `digest`: what the others are built from.
- `tests/` runs the library.
- `app/` is the process around it: sockets, files, children and tasks.

A transition that needs the outside world comes in stages. The library takes what has happened and says
what to do next; `app/` does it and hands the outcome back.
