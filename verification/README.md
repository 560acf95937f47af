# nfs4_client

A client for NFSv4.1 servers, written in Verus.

`src/` is the client without the network: how requests are put together, how
replies are taken apart, how a session is set up, and how whole files are read
and written and directories listed. Verus verifies it all but the few functions
that call other crates.

- `call`, `compound`, `tuples`, `requests`, `ops`: compound requests and their
  replies
- `client`: the requests of a session
- `handshake`, `owner`: setting up a session
- `transfer`: work that takes several requests
- `attrs`, `path`, `protocol`, `error`: attribute sets, paths, values of the
  protocol, errors
- `outside`: the types of other crates that the library carries around
- `laws`: what holds across the functions

What is taken from other crates without proof stands in functions marked
`external_body`, each with a comment that says what is claimed.

`app/` is the client over a connection. `tests/` runs the library.
