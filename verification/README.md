# cloud

A cloud-provider runtime whose decision logic is verified with Verus: the
provider-neutral vocabulary, desired-state validation, diff-aware DNS
planning, the capability matrix, the account / policy / plan store that gates
every provider effect behind owner approval, the request engines, and the
Cloudflare, Hetzner and DigitalOcean clients that turn plans into provider
calls.

Layout:

- `src/` — the verified library. Public functions state what they return or
  change; where the answer comes from a provider through a trait the caller
  implements (`Api`, `CredentialSource`, `CommandRunner`), each call's
  answer is named by a spec function of the trait (which holds of every
  answer unless the mechanism says more), and the contracts state which call
  was made with which arguments, in what order, and what is done with each
  answer; work done on an answer is often a public function of its own with
  an exact contract. The laws of the
  library (what planning, validation, approval, the record cache and the
  decision loops guarantee across calls) are public proof functions.
- `tests/` — executable tests of the library on concrete values, with
  in-memory provider fixtures.
- `app/` — the programs around the library: the binary configuration archive,
  environment credentials, the provider HTTP and `flarectl` transports, the
  daemon's Unix sockets, and the command-line clients.
