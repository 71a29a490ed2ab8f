# erc8183

A Rust SDK for the ERC-8183 Agentic Commerce Protocol (job escrow with
evaluator attestation), with its decision logic verified by Verus.

Layout:

- `src/` — the verified library: job statuses, revert selector decoding,
  networks, the client's contract configuration, the job handle, the reading
  of `getJob` records and `JobCreated` receipt logs, and the textual forms of
  addresses, integers and errors. Calls into alloy (EIP-55 checksums, decimal
  rendering of 256-bit integers, error messages) sit behind small trusted
  wrappers whose contracts are documented where they stand.
- `app/` — the transport layer: alloy `sol!` bindings, the asynchronous
  contract calls of a job handle (`JobOps`), the `thiserror` error type and the
  serde forms of the domain types.
- `tests/` — tests of the library, run against the real alloy crates.
