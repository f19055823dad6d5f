# ingestor

Ingestion of browser captures for Hosho: HAR entries from Chrome DevTools and
console events are normalized into request and console records, and exported
to an OpenTelemetry collector as OTLP JSON spans, log records and metrics.

- `src/` is the library, verified with Verus. `json` holds received documents
  (`Json`, each node with its compact text) and produced ones (`JsonValue`, with
  their mathematical model `JsonModel`). `internal::normalize` reads envelopes,
  headers, URLs, identities and initiators; `internal::specs` holds the records;
  `internal::telemetry` builds the OTLP documents, the span ids and the export
  run; `internal::exporter` holds what the SDK exporters send.
- `app/` is the Cloudflare worker around it: routes, `serde` reading of request
  bodies, floating-point timings, the collector calls and the OpenTelemetry SDK.
- `tests/` runs the library on concrete captures.
