# utility_staking

A staking program on a bonding curve: `collateral = k * stakes^2`, with
`1/k = 3 * 10^16`. Buyers pay lamports into the collateral and receive stakes,
sellers return stakes for lamports, and the administrator can withdraw
collateral after a request, which burns the stakes that the remaining
collateral no longer backs.

- `src/` is the verified library: the accounts (`state`), the errors
  (`errors`), the curve's arithmetic (`math`, `utils`), one module per
  instruction under `instructions/`, and the laws that span instructions
  (`laws`). Each instruction is a function from the accounts it reads to the
  accounts it writes, the lamports to transfer and the event to report.
- `app/` is the Anchor program around it: account validation, rent and clock
  reads, transfers, events and logs.
- `tests/` runs the library on concrete accounts.
