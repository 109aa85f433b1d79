# nowarp

Verified decision logic of a terminal-first workbench, written in Verus.

- `src/onboarding_suppression.rs`: the switches that keep automatic
  onboarding, launch modals and new-feature prompts hidden, and let the custom
  AI endpoint work without sign-in.
- `src/root_view.rs`: where an unauthenticated start lands, and what happens
  to onboarding after sign-in.
- `src/coding_panel_enablement_state.rs`: what the coding panel shows for
  local, remote and pending SSH sessions.
- `src/remote_server.rs`, `src/transport.rs`: remote server setup states,
  client/server version compatibility, and the preinstall gate.
- `src/settings.rs`: SSH setting defaults and recognition of commands that open
  a WSL shell.
- `src/custom_endpoint.rs`: framing a passive suggestion request to an
  OpenAI-compatible endpoint and reading its answer.
- `src/text.rs`: character-level helpers (trimming, word splitting, decimal
  numerals) with their specifications.
- `app/`: the HTTP exchange itself (reqwest, serde), outside verification.
