# escrow

A savings escrow for down-payment targets: borrowers deposit a token toward a
savings target, may withdraw early against a penalty that depends on how many
months have passed since their first deposit, and an admin releases the savings
to a recipient once the target is met.

- `src/` — the verified library (Verus). `types` holds the configuration, the
  borrower record and the errors; `penalty` the month count, the penalty tiers and
  the penalty/refund split; `contract` every operation of the escrow as a function
  from the stored values and the call's arguments to the values to store and the
  amount to transfer; `laws` the properties that span operations (the pooled total
  always equals the sum of the deposits, closed records stay closed, the quote
  agrees with the withdrawal, ...).
- `app/` — the Soroban contract around the library: authorization, contract
  storage, the ledger sequence and token transfers.
- `tests/` — tests of the library, run against a small simulated host.

## The uninitialized escrow

Reading the configuration of an escrow that was never initialized is a fault:
the contract panics, trapping with the `NotInitialized` error code. In the
library every operation that reads the configuration therefore requires it
(`deposit` only once the amount has been accepted), and `app/` panics before the
call when no configuration is stored. So `NotInitialized` stays in the set of
error codes, as the code the contract traps with, but no library operation
returns it: as an error code it is at odds with the rule that this read panics,
and the rule is what the library follows.
