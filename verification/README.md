# sealevel_tools

Tools for writing lightweight Solana programs, verified with Verus.

- `src/` is the verified library. It computes what a program hands to the Solana runtime:
  instruction selectors and account discriminators, the complete cross-program invocations
  (program, account metas, instruction data, account infos, signer seeds) for the System,
  Token, Token Extensions and Associated Token Account programs, the sizes of mints and token
  accounts with extensions, seed encodings for program-derived addresses, log lines and error
  codes. Each public function states its result exactly in its `ensures`; the properties that
  relate several functions are public proof functions (`lemma_*`).
- `app/` is the runtime side: it snapshots the runtime's accounts into the library's model,
  reads sysvars and return data, and performs the invocations and logs that the library
  computed through the runtime's system calls.
- `tests/` runs the library against the outside crates' own encoders (`spl-token-2022`,
  `bincode` for System instructions, `solana-program` for SHA-256).
