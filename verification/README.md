# kagibako

A 1Password client ("Kagi"): a vault browser, a command line (`list`, `get`,
`search`) and an MCP server, over the 1Password Connect API or the `op` CLI.

- `src/` is the verified library. It holds the vault and item model, the
  fuzzy search and its ranking, the browser's state machine (navigation,
  search, detail view, what each key and each backend reply does), the text
  lines each view shows, the key bindings, the `op` command lines and
  Connect URLs, the conversion of `op` items, the configuration defaults and
  the redacted configuration view, and the clipboard policy. `src/laws.rs`
  states and proves properties that span several operations.
- `app/` is the program around it: argument parsing, configuration loading,
  the HTTP and process calls, the clipboard, the MCP protocol, the scripting
  engine and the GPU window.
- `tests/` runs the library on concrete values.
