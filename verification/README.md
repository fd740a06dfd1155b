# fundraiser_pinocchio

A crowdfunding program for SPL tokens on Solana, written with pinocchio.
A maker opens a fundraiser for a target amount of one mint; contributors
send tokens to a vault that the fundraiser owns, each contribution at most
ten percent of the target; once the target is met the maker collects the
vault; once the fundraiser has run its duration in days short of its
target, contributors take their tokens back.

Layout:

- `src/` is the verified library. `state/` holds the byte layouts of the
  program's accounts and their loaders, `instruction/` the rules of each
  instruction as functions from what the program reads (`account.rs`:
  account snapshots, the clock, the rent) to the effects it asks for, or
  the error it returns. Cross-instruction properties are proof functions
  named `law_*`.
- `app/` is the on-chain entrypoint: it reads the runtime's accounts and
  sysvars into snapshots, calls the library, and carries out the effects
  through the system and token programs.
- `tests/` runs the library on concrete accounts.
