# mentorsmind

The decision logic of the MentorsMind Soroban contracts (governance,
treasury, collateral loans, price oracle, reputation, session registry, KYC
registry, upgrade registry and the shared scheduling/validation records),
written in Verus and proved against its contracts.

Layout:

- `src/` — the verified library. Every contract entry point is a function
  over the records the host has read from storage; it returns what to store,
  which event to emit and which transfer or cross-contract call to make.
  `hashing.rs` holds the one trusted item: SHA-256 through the Soroban host.
  Properties that span several calls are public proof functions named
  `law_*`.
- `tests/` — tests of the library on concrete values, driving it the way the
  host does.
- `app/` — the Soroban contracts themselves: storage, authorisation, events,
  token transfers and cross-contract calls around the library's decisions.

Some decisions rest on components of the shared platform crate that are not
part of this project: the MEV arbitrage detector, the review-pattern
analyser, the interaction commitment of completion proofs, content
protection and licensing records, the consent field set and need-to-know
minimisation, the exploitation and leak scoring behind privacy
interventions, account lockout, and the assessment-model monitoring.  The
library takes their verdicts as inputs (`isolation_ok`, `risk_score`,
`proof_valid`, `commitment_matches`, `protection`, `license`,
`consent_check`, `field_mask`, `isolate`) and states what it decides for
every value of them; the contracts in `app/` expose only the entry points
whose inputs they can supply themselves.
