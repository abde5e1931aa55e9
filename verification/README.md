# carina_awscc

The computing part of the AWS Cloud Control provider for Carina, written in
Verus: every function under `src/` carries a contract that Verus proves, but for
the wrappers around `heck`, `http`, `regex`, `serde_json` and the standard library, whose
contracts say what is relied on.

- `codegen` turns CloudFormation schemas into schema modules and reference pages.
- `schema`, `schemas` hold the types of attributes and the schemas of the
  resource types.
- `provider` converts values between the configuration language and the JSON of
  the Cloud Control API, resolves enum identifiers, builds patches, tells
  what conversions leave out, and decides how calls go on.
- `protocol` holds the types that a host and a provider exchange, and their JSON.
- `mock` holds providers that call no cloud.
- `factory` names and configures the provider.
- `text`, `keyed`, `value`, `json`, `enums`, `resource` are what the rest is
  built on.

Laws that relate several functions are public proof functions whose names begin
with `law_`. `app/` holds what talks to files, the environment and AWS. The tests
under `tests/` run the library with the crates it depends on.
