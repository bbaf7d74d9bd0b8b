# chronos

The core of the Chronos knowledge vault: the per-cycle budget of the
language-model providers and the call guard that reserves, confirms or
gives back a provider call; the tier escalation T1 → T2 → T3 (MiniMax,
with Gemini as fallback) → T4; what is sent to the providers and what is
made of their answers; the settings file; AES-256-GCM encryption of
stored notes; the graph, timeline and insight views; and the pipeline's
entry points. Each function carries a contract that Verus
proves, and the properties that span functions (a released reservation
leaves no trace, a saved setting reads back, decrypting what was
encrypted gives it back, every pipeline run ends) are proof functions
beside them.

- `src/` — the verified library.
- `tests/` — tests on concrete values.
- `app/` — the back end around it: HTTP calls to the providers, the
  shared router, file access, logging, the embedder and the parts that
  compute with floats.
