# ki-core

A Kafka inspector: a desktop window that connects to a Kafka cluster and
shows its topics, refreshed every second.

- `src/` is the verified library (Verus):
  - `metadata` — topics and cluster metadata, their equality and copies, and
    how a broker's topic listing and fetch errors become metadata;
  - `rt` — the background runtime's commands, shared state and decisions
    (which command does what; when a fetched metadata must be shown);
  - `backend` — the message loop state of the webview back end (the running
    fetcher, the last metadata) and its reconnection and refresh decisions;
  - `view` — the connection form and the text of the topics table;
  - `decimal` — decimal text of integers.
- `app/` is the program around it: the egui window, the tokio runtime and the
  rdkafka consumer. It also holds the async message loop of the webview
  window's back end, which the egui program does not start.
- `tests/` runs the library on concrete values.
