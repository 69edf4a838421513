# remotext

A remote command and file-transfer agent over iroh, with its protocol logic
verified by Verus.

- `src/` is the verified library: the frame format, the request MAC and the
  OPAQUE contexts, the server's rules (version and authentication checks, the
  authentication rate limiter, environment filtering, upload and download
  limits, command supervision), file-transfer integrity (the SHA-256 that
  sender and receiver keep of the bytes of a transfer), the client's reading
  of server answers, the
  local session manager's frames and rules, address tickets and the self-update
  plan. Each public function states its result in its contract; the laws that
  relate several functions are public proof functions.
- `app/` is the program around it: argument handling, the iroh endpoint, the
  OPAQUE exchange, processes, files and the loops that feed the library's
  decisions with network events.
- `tests/` runs the library on concrete values.
