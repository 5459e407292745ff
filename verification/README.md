# bw_ssh_agent

An SSH agent that serves the SSH keys kept in a Bitwarden vault. The library in
`src/` holds the logic, verified with Verus; `app/` is the `bw-ssh-agent` command
around it (HTTP, D-Bus secret service, the SSH agent socket, systemd).

## Library modules

- `text`: splitting text on a separator, with the laws of `split`/`join`.
- `primitives`: the calls into base64, AES-CBC, HMAC, PBKDF2 and UTF-8 decoding,
  each with the contract the rest is proved against.
- `enc_string`: Bitwarden's encrypted-string format and its parser.
- `symmetric`, `asymmetric`: the AES-256-CBC-HMAC key and the RSA-OAEP key.
- `utils`: HKDF key stretching and the decryption of single vault fields.
- `models`: the records exchanged with the Bitwarden servers.
- `auth`: the login requests and the unlocking of the user key.
- `vault`: which key decrypts an item, what the secret store keeps of an SSH key,
  and which stored keys are stale.
- `secret_store`: item labels, lookup attributes and the encoding of stored values.
- `endpoints`: the server URLs, the endpoints under them, and the bearer header.
- `login`, `agent`: the decisions of the interactive login and the sync loop, and
  the SSH agent's work: the keys it offers, the key that signs, its extensions.

The crate provides the command-line agent only; it has no graphical interface.
