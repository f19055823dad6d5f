pub mod ingest;
