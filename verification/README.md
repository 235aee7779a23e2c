# passkeys

Passkeys and two-step login for a Bitwarden-compatible server on Cloudflare Workers.

`src/` is a library in Verus. It holds the decisions of the endpoints: which SQL runs with which
values, how a WebAuthn ceremony is configured and answered, what a client receives and which error it
gets instead. Each endpoint is a procedure that is called with the replies it has had so far and says
what it needs next, or that it is through. Its contract gives the answer for every list of replies.

- `encoding`, `identifier`, `json`, `sql`, `text`, `util`: values and their texts
- `error`, `models`, `types`: what requests, accounts and ceremonies are made of
- `flow`, `resume`: procedures, and what holds of them however often they are resumed
- `webauthn`: origins, the credential store, client payloads, ceremonies, PRF keys
- `handlers`: the endpoints, and the laws that they keep

`app/` is ordinary Rust around the library: it performs what a procedure asks for (D1, the passkey
protocol, the clock, JSON bodies) and hands the reply back.

`tests/` runs the library.
