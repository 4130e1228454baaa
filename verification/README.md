# backed_cli

A command-line client for the Backed protocol contracts (the agent raise
factory, its sales and the contract allowlist), with its logic verified by
Verus.

- `src/` is the verified library: resolving the configuration from the
  options and the deployment file, reading and printing token amounts
  (through `ethers`' `parse_units` and `format_units`), addresses and 256-bit
  numbers, the signing key's address, and what each command decides from
  what it read and the lines it prints. Each public function states in its
  contract what it returns; the laws (amount and address round trips, the
  duration breakdown, status codes, the repository-root search) are proof
  functions.
- `app/` is the program: the command line (`clap`), the filesystem and the
  deployment file (`serde_json`), and the calls to the chain (`ethers`),
  which hand plain values to the library and print the lines it returns.
- `tests/` runs the library on concrete values.
