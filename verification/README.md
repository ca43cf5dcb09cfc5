# subscriptions

Verified core of a Solana token-delegation program (fixed delegations,
recurring delegations and merchant subscription plans).

- `src/` — the library, verified with Verus:
  - `instruction.rs`: the instruction enum, its wire format and parser, with
    the laws that parsing inverts encoding and accepts only encodings;
  - `payload.rs`: the fixed-size payload records and their loaders;
  - `rent.rs`: the rent-exemption rule over the raw Rent sysvar;
  - `program_account.rs`: the owner check and the create/close decisions for
    program accounts;
  - `bytes.rs`: little-endian fields; `error.rs`: the program's errors.
- `app/` — runtime glue on pinocchio: account reads and writes, the Rent
  sysvar syscall, System Program invocations, the floating-point rent scaling
  and the conversion to the runtime's error type.
- `tests/` — tests of the library on concrete values.
