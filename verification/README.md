# secrets_portal

The verified core of a small web portal in which an engineer requests a new
value for a secret, two other people approve it in turn (L1, then L2), and
the value is then written to AWS Secrets Manager. The plaintext is only ever
held in memory; the database stores its KMS ciphertext.

`src/` is the library, verified with Verus:

- `approval` — the approval ladder (`Status`, `Decision`, `ApprovalLevel`)
  and `DecisionRun`, the step-by-step logic of recording a decision inside
  one database transaction, with a model of the stored rows and proofs that
  a run commits exactly the allowed transition and keeps every request's
  rows consistent.
- `config` — the deployment configuration and its boot checks.
- `handlers` — the handler state: prefix policies ordered longest prefix
  first, lookup by secret name (longest prefix wins), and the Secrets
  Manager client slot of each account.
- `policies` — prefix policies as stored in the database, tags as JSON.
- `kms` — what goes to KMS and how ciphertext is kept as base64 text.
- `secrets_manager`, `users`, `errors`, `text` — small pieces around them.

`app/` is the server: configuration loading, Postgres queries, the AWS SDK
calls and the HTTP listener. It runs the database steps that `DecisionRun`
asks for and converts between database types and the library's plain values.
