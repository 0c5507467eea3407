# flor_echo

An echo service: a TCP server that serves at most a configured number of
connections at a time and writes every byte it reads back to its sender,
clients that greet it with `hello world <index>` and read its replies, and a
monitor that reports the server's connection events.

- `src/` is the verified library: admission control of the server
  (`server`), the echo handler's decisions (`echo`), the client's greeting,
  reply handling and start delays (`client`), the monitor (`monitor`), the
  connection events (`connection`) and the I/O error kinds it tells apart
  (`io_error`).
- `app/` is the program around it: sockets, tasks, channels and logging.
- `tests/` runs the library on concrete values.
