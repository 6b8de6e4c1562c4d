# sync-service

A service that keeps the folders of its users in sync with an Immich server, with its
decisions written and proved in Verus.

## Layout

- `src/` is the library. It holds every rule: the command line, which files are left
  alone, the table of assets, what is sent to the server and what the replies mean, and
  the two workers as state machines.
  - `config`, `sync`, `sync_laws`: the configuration, the path filter, the purge at
    startup, and what runs for a user.
  - `local_db`, `local_db_laws`: the table of assets as a map from user and path.
  - `api`, `api_laws`, `json`: requests, replies, and their JSON text.
  - `workers`: the upload worker (`upload_model`, `uploader`, `upload_laws`), the discovery
    worker (`discovery`, `discovery_laws`), and what is told of a file (`asset_info`).
  - `calendar`, `calendar_laws`, `hash`, `text`, `event_log`: timestamps, checksums, plain
    text, and the records of the event log.
- `app/` is the program: it reads files, the clock and the command line, talks to SQLite
  and HTTP, performs the actions that the workers name, and hands back the outcomes.
- `tests/` runs the library.

Each public function states what it returns. The modules whose names end in `_laws` state
what holds over several calls: that a content which has its asset is not uploaded again in a
poll, whatever the server says, nor over any number of polls as long as the table does not
list it again or the server rejects what it has; that a dry run uploads nothing; that a
link belongs to a content; that users are kept apart; that a scan fills in the creation
times which the table lacks.

The program runs the upload worker and the discovery worker of each user. It has no file
watcher and no deletion watcher; the plan for a user names what these two would work with.
