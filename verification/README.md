# mpesa_dev

The local development toolkit for M-Pesa Daraja (`doctor`, `inspect`,
`tunnel`, `replay`), with its decisions written in Verus and proved against
their contracts.

- `src/` — the verified library: ResultCode tables, decimal parsing and
  printing as std does it, configuration with environment overrides, the
  `doctor` checklist, `inspect`'s tallies and masking, stored-callback naming,
  listing and selection, the Daraja token cache and error messages, and the
  relay's routing of tunnel hosts and forwarded headers.
- `app/` — the program around it: command line parsing, file, network and
  terminal I/O, the HTTP servers, and the serde forms of the library's types.
- `tests/` — tests of the library on concrete values.
