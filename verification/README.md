# sanad_ai

The AI service of the Sanad Islamic application: it answers religious
questions from trusted sources and guards the answers against fabricated
verses and hadith.

- `src/` is the library, written in Verus and verified: the analysis of a
  question (normalisation, keywords, concepts, type, scope), the scoring and
  filtering of sources, the grading rules of hadith, the detection of
  fabricated or unsupported content and of contradictions, the disputed
  questions and schools of thought, the context and prompt given to the model,
  citations and follow-up questions, the caches, the rate limiter, the circuit
  breakers, the error handler, the steps of answering a request, and the health
  reports. Calls into `regex`, `chrono` and `uuid` go through a few functions
  whose contracts are trusted; `src/laws.rs` states and proves properties that
  span several functions.
- `app/` is the service around it: configuration files and the environment,
  the HTTP client of the model host, the Qdrant client, the asynchronous
  orchestration, and the scores computed in floating point.
- `tests/` runs the library on concrete values.
