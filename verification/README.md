# webserver

A rudimentary HTTP/0.9 server that answers `GET /path HTTP` commands with a
file from its working directory (`200 OK`), or with `400 Bad Request`,
`403 Forbidden` or `404 Not Found`.

- `src/` is the verified library: tokenizing the request, checking the request
  line, the validation of a request against the file system as a state machine
  (`validation`), building and writing responses, the log line, and gathering
  the request from the chunks read off a connection. `reqhandler` holds an
  earlier, simpler set of request rules, kept beside the current ones; the
  program does not use it.
- `app/main.rs` is the program: the listening socket, one thread per
  connection, the working directory, the file system, the clock and the log file. It performs the
  actions that the library's state machine asks for.
- `tests/` exercises the library, with a small in-memory file system standing
  in for the real one.
