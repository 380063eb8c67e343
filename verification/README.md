# romio

Asynchronous network primitives, with the decisions they make verified by
Verus.

- `src/` is the verified library: the readiness cache of a registered I/O
  resource (`raw`), what an I/O attempt on a ready resource leads to
  (`poll`), the connection future (`connect`), the UDP and Unix datagram
  futures (`net::udp`, `uds::datagram`), and the timeout, delay and clock
  logic (`timer`).
- `app/` holds the sockets, the reactor registration and the `futures`
  trait impls. It performs the I/O and hands its outcomes to the library's
  state machines.
- `tests/` exercises the library on concrete values.
