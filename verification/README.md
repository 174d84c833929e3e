# robinsr

Game-server logic for a Honkai: Star Rail private server, written in Verus.

- `src/` is the verified library: packet framing (`packet`), the command-id list and
  routing (`cmd`), loading the player's data (`data`, `text`), the session state
  (`state`), the request handlers (`player`, `avatar`, `lineup`, `battle`, `scene`,
  `item`, `mission`), the answer to one request (`dispatch`) and the HTTP answers
  (`sdk`). Each public function states its result in `ensures`; the laws that relate
  several functions are public proof functions (`lemma_*`).
- `app/` is the program around it: the TCP and HTTP servers, protobuf and JSON
  encoding, and the files `freesr-data.json`, `persistent.json` and
  `proto/cmdid.rs` (the command-id list), all read from the working directory.
- `tests/` runs the library on concrete values.
