# atomicals

A client library for the Atomicals protocol on Bitcoin, written in Verus.

`src/` is the verified library. It holds the rules and computations of the
client: ARC-20 token and realm/subrealm configuration rules, bitwork
(proof-of-work prefix) parsing and matching, the nonce search and its split
among workers, the reveal script and OP_RETURN framing, transaction size
accounting in quarter virtual bytes, funding-output selection and the
commit/reveal plans of the mint operations, the steps taken after mining,
and the decisions taken on wallet and indexer answers (signed PSBTs and
transactions, public keys, UTXO listings, parent ownership). Calls into
`bitcoin`, `sha2`, `hex`, `base64`, `regex` and `serde_json` go through small
trusted wrappers in `chain.rs`, `digest.rs`, `codec.rs`, `pattern.rs` and
`entry.rs`, each with a contract.
Public proof functions named `law_*` state properties that span functions.

`app/` is the browser side: wallet providers, web-worker mining, the async
mint operations that drive wallets and workers, and the JavaScript entry
points. It hands the library plain values and takes plain values back.

`tests/` exercises the library on concrete values.
