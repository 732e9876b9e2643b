# TrustLink

TrustLink is a registry of attestations for the Stellar network. Registered
issuers claim things about subjects ("this account has passed an identity
check"), and anybody can ask who holds which claims. Attestations can expire, be
renewed, be revoked by their issuer and be erased at the wish of their subject.
They can also be imported by an administrator, mirrored from another chain by a
bridge contract, or agreed on by several issuers. Administrators run the
registry; a council with a quorum can remove issuers and pause writes.

The logic is written and verified in [Verus](https://github.com/verus-lang/verus).

## Layout

- `src/` is the verified library. It knows nothing of the network: a request is a
  function on `Env`, the ledger as the request sees it, and what it asks of the
  world outside (events, token transfers, calls on other contracts) is recorded
  there as effects.
  - `address`, `text`, `list`, `table`, `types`, `events`: plain data.
  - `env`, `storage`: the ledger, its two tiers, and how long entries live.
  - `validation`, `jurisdiction`, `ident`: tests that requests have to pass, and
    identifiers.
  - `admin`, `issuers`, `issuance`, `lifecycle`, `queries`, `multisig`, `council`:
    the requests.
  - `requests`, `books`: requests as values, and what they write to the records,
    the indexes and the audit logs.
  - `laws`: what holds of every request and of every ledger that requests lead to.
- `app/` is the Soroban contract around the library: it converts values, loads and
  stores ledger entries, checks authorizations and performs effects.
- `tests/` runs the library.

## Contracts

The contract of a request has two parts. The first names the error on which the
request founders on a given ledger, or none. The second gives the ledger
afterwards: unchanged after a refusal, and fully determined otherwise.

A request needs the authorization of the party that makes it. Where it passes, a
few counters have to have room left: the lifetime of an entry in ledgers, the number
of attestations of an issuer, the numbers of council proposals, and the time at
which a proposal expires.
