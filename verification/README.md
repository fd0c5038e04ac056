# ai_mesh

A node of a decentralized peer-to-peer AI mesh: every device runs its own
model, takes jobs from peers, and answers with results that it signs.

`src/` is the verified library:

- `hexcode` — lowercase hexadecimal text and its decoding, with the
  round-trip law.
- `keys` — ed25519 node identities, their public keys and signatures, and
  what storing and loading an identity gives.
- `receipt` — Blake2b-512 receipts of job outputs.
- `canonical` — the compact JSON object over which envelopes are signed
  (strings escaped as `serde_json` writes them, numbers in decimal), the
  text of job identifiers, and the law that the object determines its
  members.
- `envelope` — job envelopes (with creation and expiration times) and
  signed job results: canonical bytes, signing, checking, and the laws that
  a signed envelope passes the check under its signer's key.
- `capability` — what a node announces, and how a job's model is matched.
- `text` — substring search and trimming on characters.
- `runtime` — the decisions of the model-server client (endpoint, which
  reply counts).
- `config` — the node's configuration and its defaults.
- `mesh` — mesh messages, the decisions a node takes on a job, and how a
  target peer given on the command line is read.

`app/` is the program around it: command line, files, HTTP to the model
server, the libp2p swarm, and the serde copies of the library's types.
