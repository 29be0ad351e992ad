# wrangler

The decisions of a few `wrangler` commands, verified with Verus.

- `src/` holds the library: `wranglerjs` (the bundler's command line, tool
  checks, npm, the report file and the watch loop), `kv` (the request that
  writes a value into a Workers KV namespace), `subdomain` (the workers.dev
  subdomain registration as a state machine), `global_user` (the user of the
  global configuration) and `text` (shared message pieces).
- `app/` runs the commands around it: files, processes, the configuration
  reader, the watcher and the API client.
- `tests/` exercises the library on concrete values.
