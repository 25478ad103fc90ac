# vector_agent

Two parts of an observability agent, written in Rust and verified with Verus.

- `sources::host_metrics` turns what the host reports of its processes into metrics: which
  processes and metrics the configured glob patterns let through, the tags that every metric of a
  process has and those that only some have, usernames that are kept for a configured time, and
  the owner of the shared memory that a process uses.
- `sinks::azure_common` is what the Azure Blob Storage sinks share: the credentials that the
  settings ask for, the default chain of credentials and how it is asked for a token, the proxies
  of a client, the client itself, which errors are tried again, and what a healthcheck's answer
  means.

`src/` holds the library. What it says of the crates and of the parts of the standard library that
it calls is stated in the items marked `external_body`, `external_type_specification` and
`assume_specification`, some of it over names without a definition, the functions marked
`uninterp`; everything else is proved. `app/` reads the host, talks to the service and
reads configuration files. `tests/` runs the library on concrete values.
