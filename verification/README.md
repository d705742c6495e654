# ombrac

A tunnel for TCP and UDP traffic over QUIC: the verified library, and the program
around it.

* `src/` is the library. Everything in it is checked by Verus: the SOCKS protocol
  and endpoint (`socks`), the user-space network stack behind a TUN device
  (`netstack`), the client (`client`) and the server (`server`), with the plain
  values that they share (`address`, `error`, `time`, `tunnel`, `transport`).
* Work that waits for the network is written as functions from an event to the
  next step. What a run of such steps promises is stated by the proof functions
  whose names begin with `law_`.
* Calls into other crates stand behind small functions marked
  `#[verifier::external_body]`, each with the contract that it is trusted to meet.
* `app/` is the program: it reads configuration, performs the steps, and moves the
  bytes. `tests/` runs the library on concrete values.
