# keygen-cli

An AI-friendly command-line tool for [keygen.sh](https://keygen.sh), built
around a library whose behaviour is specified and proved with Verus.

## Layout

- `src/` — the verified library (`keygen_cli`). Every decision the tool
  makes is here, with its contract: profile and configuration resolution,
  XDG paths, `config get/set`, capability detection and its one-day cache,
  the error catalogue and `explain`, API error mapping, the relation-filter
  audit, request plans for each resource command, the JSON envelope and the
  error payload, table/TSV/NDJSON rendering, exit codes and the command
  schema. Calls into `url`, `base64`, `owo-colors` and `reqwest`'s header
  types go through small trusted wrappers whose contracts are stated next
  to them.
- `tests/` — tests of the library on concrete values.
- `app/` — the `keygen` binary: command-line parsing (clap), files, the OS
  keyring, HTTP, terminal output, and relative timestamps.

## Stable contracts

- Success envelope: `{ "ok": true, "data": ..., "meta"? }`; failures:
  `{ "ok": false, "error": { "kind", ... } }`.
- Exit codes: `0` ok, `1` user error, `2` server error, `3` network,
  `4` auth, `5` capability not supported.
- Settings resolve as flag (or environment variable), then the named
  profile, then the `default_profile` entry, then the built-in defaults.
- Output format: `--output` when given; otherwise JSON with `--ai` and a
  table in every other case, pipes included (colors are dropped off a
  terminal, the layout stays). `--human` is accepted and changes nothing.
- List filters are sent as `filter[<key>]=<value>` and the answer is
  audited: a deployment that ignored a relation filter is reported as
  `FILTER_UNSUPPORTED`.
