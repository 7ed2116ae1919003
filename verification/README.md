# Budget jar

A contract that keeps a budget in three jars. Each deposit is split over
"needs", "wants" and "savings" by percentages that the user has chosen; what
rounding leaves over goes to savings. "Needs" and "wants" can be withdrawn at
any time. Savings are locked for a time after each deposit; in an emergency they
can be withdrawn earlier, less a penalty that stays with the contract.

## Layout

`src/` is the library, verified with Verus. It decides every call: from the
surroundings of the call (`Env`: the time, who authorized it, the ledger entries
at hand) to new entries and the transfers to be made, or to the reason for which
the call is refused (`JarError`).

- `names`, `key`, `config`, `error`: addresses and symbols, the keys of ledger
  entries, the jar configuration, the errors.
- `table`, `env`: tables of entries, and the surroundings of a call.
- `split`: the arithmetic of deposits and penalties.
- `outcome`: what each call leads to, as a function.
- `contract`: the calls, each proved to do what its outcome says.
- `laws`, `footprint`, `history`, `solvency`: what holds of the contract as a
  whole. Users do not touch each other's jars, and a call needs the entries of
  its own user only. After any run of calls no jar is below zero. After any run
  in which the contract itself is no user, the contract holds at least what its
  jars say it owes, provided that the token contracts move exactly what is
  ordered.

`app/` puts the library on a Soroban ledger. It asks the host for the user's
authorization, fetches the entries of the user, hands them to the library, writes
the changed ones back and has the token contracts make the transfers. A refused
call panics with the error's message, so that the host undoes it.

`tests/` runs the library on concrete values, alone and on a Soroban test ledger.
