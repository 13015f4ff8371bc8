# model-provider

A client for the AI HTTP APIs of several vendors (OpenAI-compatible gateways,
Anthropic Messages, Google Gemini, Aliyun DashScope, Ollama, Zhipu) behind one
configuration, written in Verus.

- `src/` is the verified library: which API serves a provider for each
  modality, the request bodies and URLs, the reading of answers and of
  server-sent event streams, error classification, base64 and text
  normalization. Each public function states its result exactly in terms of
  spec functions over the JSON values involved; the laws (chunking of event
  streams, normalization, provider names, URL joining, stream end reasons,
  Gemini call ids) are public proof functions.
- `app/` is the async client around it: the HTTP transport (`reqwest`), the
  provider traits and their implementations, and the reading of answers that
  carry floating-point numbers (embedding vectors, rerank scores).
- `tests/` runs the library on concrete requests and answers.
