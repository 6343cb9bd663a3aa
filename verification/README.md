# wild_buzzard_engine

The rules of a bounded page engine, verified with Verus: how a navigation worker
admits commands and publishes events and frames, how a general-web document is
fetched and committed, which response policies it brings, and how its
stylesheets are planned, admitted and fetched.

- `src/identity.rs`, `limits.rs`, `frame.rs`, `scene.rs`, `failure.rs`: values.
- `src/commit.rs`, `style_document.rs`: what a response commits, and the ledger
  of one response document.
- `src/engine.rs` with `admission.rs`, `control.rs`, `publication.rs`,
  `document_work.rs`, `receiver.rs` and `worker.rs`: every locked operation on the
  state that a worker shares with its callers, as a function on a model of it.
  `invariants.rs` states what each of them keeps.
- `src/document_policy.rs`, `content_type.rs`: response metadata of a document.
- `src/csp_source.rs`, `csp_policy.rs`, `policy_hosts.rs`, `style_policy.rs`: style
  policies, and what they ask the URL parser.
- `src/style_fetch.rs`, `style_plan.rs`, `style_transport.rs`, `style_response.rs`,
  `mime.rs`, `legacy_mime.rs`, `style_body.rs`, `style_transaction.rs` and
  `style_owner.rs`: the one stylesheet transaction of a document.
- `src/document_fetch.rs`, `page_engine.rs`, `snapshot_render.rs`,
  `scene_charge.rs`, `dynamic.rs`, `pipeline_error.rs` and
  `pipeline_executor.rs`: the page pipeline, between its outside calls.
- `src/messages.rs`, `describe.rs`: what errors and other values say.

`app/` runs the rules: the worker thread, clocks and flags, and the loops that
call the network, the parser and the renderer and hand their answers back.

Two functions are trusted: `share_text` in `commit.rs`, which clones an `Arc`,
and `decode_text` in `text.rs`, which decodes UTF-8.
