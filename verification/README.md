# golem_common

The data model shared by the worker executor and the cloud services: template,
worker, promise and shard identifiers, worker status and metadata, the
blob-store entries of a worker and the local template object store, written in
Verus; each operation's contract states what it returns or changes.

Layout:

- `src/ids.rs` – UUID-valued template ids, their hyphenated text and the text
  forms accepted when parsing one back.
- `src/worker.rs` – worker, versioned worker, promise and schedule ids: slugs,
  store keys, URIs, parsing of `<template id>:<worker name>`, message forms.
- `src/shard.rs` – the string and worker hashes, the shard of a worker, and the
  set of shards assigned to an executor.
- `src/metadata.rs` – accounts, invocation keys, calling conventions, worker
  status codes and records, worker metadata.
- `src/blobstore.rs` – blob-store entries and the byte-stream logic of value bodies.
- `src/template_store.rs` – where the file-system template store keeps objects.
- `src/proto/` – the wire messages the ids convert to and from.
- `src/text.rs` – decimal text of integers.
- `app/` – serialization, clock, file system and asynchronous plumbing around the library.
- `tests/` – tests of the library on concrete values.
