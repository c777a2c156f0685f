# AgentMaster

Runs one process under a terminal of its own and hands control of that process
over a port: start it, read its window, type into it, resize the window, read what
it put on the clipboard, stop it, ask how it ended.

## Layout

- `src/` is the library. It decides everything that is decided: what the session
  answers and does, what a client asks and makes of the answers, what the command
  line spells, what goes over the wire. Every function in it states what it does and
  is proved with Verus, but for the two calls into the `base64` crate, whose contracts
  are taken on trust. `src/laws.rs` states what holds over any course of events.
- `app/` is the program around it: sockets, terminals, processes, signals, clocks,
  the terminal emulator, JSON and the help texts. Called `amctl` it drives a running
  program by hand; called anything else it is the program that owns the process.
- `tests/` runs the library.

## By hand

```sh
agent-master --listen 127.0.0.1:7620    # or AGENT_MASTER_LISTEN in the environment

export AGENT_MASTER_ADDR=127.0.0.1:7620
amctl start --cwd /workdir --rows 80 --cols 100 --env TERM=xterm-256color -- sh
amctl window
amctl input 'hello'
printf '\r' | amctl input
amctl resize --rows 40 --cols 120
amctl state
amctl clipboard
amctl stop --grace-ms 5000
```

`amctl window` writes the window as a terminal would paint it. On a terminal it
takes a screen of its own and follows the process until you press `q`; with
`--freeze` it shows the window as it is instead. Anywhere else it writes the bytes
as they are, once.
