# staking

A staking vault program, verified with Verus.

Stakers lock lamports in numbered vaults (ids `1..=128`); a reward authority
funds a vault and sets its reward rate; a staker claims, once per stake, a
share of the rate in proportion to its part of the vault's total stake, times
a fixed number of days, paid to its wallet; stakers withdraw what they staked
back to their wallet.

Layout:

- `src/states/` — the accounts (`VaultAccount`, `StakerAccount`, the account
  sets of each instruction), the errors, the events, the constants, and
  `Binary32`, the single-precision reward rate held by its bit pattern.
- `src/instructions/` — one module per instruction. Each states its outcome as
  a spec function (`*_result`: the accounts after it, or its error) and the
  condition under which its arithmetic cannot overflow (`*_fits`).
- `src/staking.rs` — the entry points: the authority checks of the accounts,
  then the instruction.
- `src/laws.rs` — properties across instructions (a withdrawal undoes a stake,
  a claim cannot be repeated without a new stake, lamports are conserved, the
  vault's total stake keeps covering each stake, ...).
- `app/` — the Anchor program around the library: account handles, system
  program transfers, balances, events, the clock, and the single-precision
  arithmetic of the reward formulas.
