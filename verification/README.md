# canary_examples

Verified core of three small networked programs: a Fibonacci cluster whose
coordinator farms requests out to worker nodes and falls back to local
computation, a file drop that stores each file in a room named by a random
five-word phrase until it is fetched once, and a ping/pong exchange.

- `src/` is the library, checked by Verus: the Fibonacci functions
  (`fib64`, `fib32`, with the mathematical sequence in `fib_spec`), the
  coordinator's decisions (`cluster`), the file drop (`croc`), the ping
  answer (`ping`) and the request codes used on the wire (`protocol`).
- `app/` is the command-line program that binds sockets, moves messages
  and hands what it receives to the library.
- `tests/` runs the library on concrete values.
