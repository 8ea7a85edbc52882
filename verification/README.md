# platform_validation

Validation and routing rules of Dash Platform state transitions and queries,
written in Verus with their contracts proved.

- `src/` — the verified library:
  - `document_transition`: document transition actions and their base.
  - `validation`, `errors`, `identifier`, `version`: shared types.
  - `credit_transfer`: version dispatch of the credit transfer balance check.
  - `vote_status_query`: checks and routing of the version-upgrade vote status query.
  - `identity_create`: the identity create state validation as a state machine.
  - `data_contract`, `data_contract_create`: data contracts and the create action.
  - `document_replace`: action codes and the object form of replace transitions.
- `app/` — protobuf decoding, the JavaScript binding, and the loop that runs
  the identity create validation against the platform state.
- `tests/` — tests of the library.
