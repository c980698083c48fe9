# hreq

The bodies and the connections of an http client, verified with Verus.

- `src/` is the library. Its functions state in their contracts what they return and change, and
  Verus proves it.
  - `body`: request and response bodies, how they are configured and read
  - `codec`: where the bytes of a body come from, and their content coding
  - `charset`: the charset of text bodies
  - `convert`: values that can stand for a body
  - `request`: the headers that a request is sent with
  - `send`: sends a request body, step by step
  - `body_buf`: retains a body that was sent, so that it can be sent again after a redirect
  - `conn`: connections
  - `ticket`: the ids of connections, and what their unfinished requests are counted by
  - `headers`: header maps of the `http` crate
  - `laws`: what bodies promise across several calls; `request`, `send`, `body_buf`, `conn` and
    `ticket` hold more
  - `unfinished`: how the count of unfinished requests goes up and down
- `tests/` runs the library, with the real `http` and `encoding_rs` crates.
- `app/` drives the library over asynchronous readers, HTTP/1.1 and HTTP/2.

Readers, sockets and timers stay outside of the library. Reading a body, or sending a request, is
a sequence of steps: the library says what is to be done, and is told what came of it. The
streaming gzip and charset codecs and the timer are supplied by the program, through the traits in
`app/env.rs`.
