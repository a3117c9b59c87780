# mcp_notifications

Truthful multi-channel notification delivery for AI agents, as a verified
library with a thin MCP server around it.

- `src/` is the library, verified with Verus: channel names, quiet hours,
  recipient redaction, endpoint selection, the delivery plan and its outcome,
  template rendering, and the service state (notification log, templates,
  preferences) with every tool's decision.
- `app/` is the MCP server over stdio: it holds the state behind a lock,
  reads the gateway endpoints from the environment, sends the HTTP requests
  that the library plans, and writes the answers as JSON.
- `tests/` runs the library on concrete values.

A notification is `delivered` only after an endpoint answered with a 2xx
status; missing or failed delivery paths are `failed`; preferences and quiet
hours give `suppressed` without a request; in-app and scheduled records stay
`queued`.
