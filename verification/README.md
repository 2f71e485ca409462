# voxply

The verified core of Voxply, a self-hosted chat and voice hub with
keypair identities. The library states what each rule of the hub and of
the identity layer does as a contract, and the code is proved against it.

## Layout

- `src/` — the verified library.
  - Identities: `keypair`, `identity`, `master`, `subkey` (Ed25519 keys,
    recovery phrases, the HKDF-derived master key, device subkeys);
    `crypto` and `hexcodec` hold the calls into `ed25519-dalek`, `sha2`,
    `hkdf`, `bip39`, `rand` and `hex`, each behind a small trusted wrapper.
  - Signed payloads: `wire` (the domain-separated signing bytes of home-hub
    lists, subkey certificates, revocations, prefs blobs and pairing
    messages) and `wire_laws` (the signing bytes determine every field).
  - Hub rules: `auth` (login handshake, canonical identity across paired
    devices, admission gates, sessions), `channels`, `messages`, `roles`,
    `games`, `hub` (settings, branding, profile), `friends`, `dms` and
    `outbox` (direct messages and their retry schedule), `pairing`,
    `alliances`, `ws` (what a live socket session passes on), `voice`
    (voice-channel roster, voice-activity switch, device order), `schema`
    (the database setup steps), `text` and `clock`.
- `tests/` — scenario tests against the compiled library.
- `app/` — what cannot be verified: the identity file on disk, the JSON
  forms of the API requests and responses and of the wire payloads, the
  floating-point rate limiter and audio level meter.
