# tgcli

The rules of a daemon that keeps a local archive of Telegram messages, verified with Verus.

- `src/` is the library. Each activity is a step function from a state and an event to the next
  state and an action; its contract is the relation `moves`, and the files named `*_laws.rs` hold
  what follows for every run.
- `tests/` runs the library.
- `app/` performs the actions: it talks to Telegram, the disk, the terminal and the clock.

| Module | What it holds |
| --- | --- |
| `daemon`, `daemon_laws` | the life of the daemon, from its start to its end |
| `ingest`, `ingest_laws` | storing one message update, its metadata after it |
| `sync`, `backfill` | reconciliations and the background sync |
| `history`, `history_laws` | resumable import of older history, page by page |
| `report`, `onboarding` | health reports, and the half-minute round that writes them and imports history |
| `private_file`, `fsperm` | files for the owner alone |
| `message`, `peer`, `peer_id` | what is read from an update |
| `stream`, `json`, `document`, `version` | lines and documents of JSON |
| `args`, `store`, `notice`, `text`, `time` | arguments, records, notices, texts, points in time |

What is not proved, because it is done by grammers, chrono or serde_json, stands in `peer_id`,
`time` and `json`, with what is taken for granted of each call.
