# pqsp — verified core of post-quantum sovereign privacy storage

The library (`src/`) holds the protocol logic, each function with a Verus
contract:

- `commitment`: SHAKE256 state commitments over a length-prefixed transcript
  (domain, context, message), with a proof that the transcript is unambiguous.
- `encryption`: keys, the versioned envelope `version || nonce || ciphertext`
  and its parser, and the XChaCha20-Poly1305 encryptor.
- `zk`, `json`: proof statements and bundles, and the deterministic mock
  prover and verifier over the canonical statement JSON.
- `onchain`, `types`: verifier inputs and receipts, the local mock verifier,
  and the checks and call arguments of the EVM verifier adapter.
- `keys`, `fixed_hex`: the signer key and contract address of the EVM
  verifier, and the text form of fixed-size hashes (storage roots,
  addresses), parsed as ethers-rs parses them.
- `client`, `payload`, `error`: the upload pipeline (encrypt, commit, state,
  prove, assemble), the choice of upload route, dry-run and live storage
  receipts, and the storage root of a download.
- `settings`: node lists, `.env` entries, the configuration chosen from the
  environment, download addresses, default file names and the replay check of
  saved artifacts.
- `hex`, `text`, `bytes_ext`, `hash`: supporting encodings and the trusted
  wrappers around `sha3`, `bytes`, `k256` and std.

`app/` is the command-line program: file, network and chain I/O, the
asynchronous client and verifier interfaces, and serializable copies of the
library's types. `tests/` exercises the library on concrete values.
