# adex_outpace

OUTPACE (Offchain Unidirectional Trustless Payment Channels) for the AdEx
protocol, verified with Verus.

A channel locks a creator's deposit. Until `valid_until`, anyone whom the
validators' signed balance tree credits can withdraw their earnings by
presenting a Merkle proof of their balance leaf and signatures from at least
two thirds of the validators. After expiry, the creator takes back what is
left.

Layout of `src/`:

- `outpace.rs`: the module's storage (`Outpace`, viewed as a `Ledger` of maps)
  and the three calls `channel_open`, `channel_withdraw_expired` and
  `channel_withdraw`, each specified by a pair of spec functions (its refusal
  and the storage it leaves);
- `laws.rs`: properties across calls (a channel opens once, expires once,
  earnings are paid once, payouts stay within the deposit, ...);
- `channel.rs`: the channel and its SCALE encoding and hash;
- `merkle.rs`: signature counting and Merkle proof folding;
- `codec.rs`, `crypto.rs`: the encodings (`parity-codec`), Blake2-256
  (`blake2-rfc`) and ed25519 verification the logic rests on; signatures are
  checked by `ed25519-dalek`'s `Verifier::verify`, whose acceptance of
  edge-case signatures is that library's;
- `balances.rs`, `table.rs`, `bytes.rs`: free balances (with no existential
  deposit and no account removal), storage maps keyed by byte strings, byte
  comparisons;
- `adex_v3.rs`, `demo.rs`: the earlier channel module and a small game;
- `runtime.rs`: the runtime's version (with its API list), its opaque
  extrinsic, and whether a call's pending storage changes are committed.
