# fluxapay access control

Role-based access control for the FluxaPay payment contracts, verified with
Verus.

- `src/role.rs` — roles (symbols of at most 32 characters from
  `a-zA-Z0-9_`), the four built-in roles, and accounts.
- `src/access_control.rs` — the registry (`AccessControl`), its abstract
  state (`AccessState`), the transition of each operation, and the decision
  functions (`check_grant`, ...) that any storage of the same entries can use.
- `src/laws.rs` — properties that span operations (a revocation undoes a
  grant, refusals change nothing, renouncing never removes an administrator,
  ...), proved over `AccessState`.
- `app/lib.rs` — the same operations on Soroban persistent storage, with the
  host's authentication, calling the verified decisions.
