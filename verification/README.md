# warden_worker

The verified core of a Bitwarden-compatible server that runs on Cloudflare
Workers.

- `src/` is the library, checked by Verus:
  - `text` — trimming, splitting on `/`, decimal formatting and parsing;
  - `msgpack` — MessagePack values, their encoding and the size-prefixed frames
    of the SignalR hub protocol;
  - `notifications` — connections, selectors and tags, the update messages
    pushed to clients, timestamps, the fan-out payload and the handshake;
  - `client_context` — the client's IP address and device type from request headers;
  - `device` — device types and the parsing of a required device-type field;
  - `streaming` — which requests are streamed transfers, their routes and the
    checks on uploads and downloads;
  - `auth_requests` — the login-with-device endpoints as step functions;
  - `token` — transfer tokens: the HS256 check and the expiry rule;
  - `transfers` — dispatch of streamed transfers and their handlers as step
    functions, from the result of each piece of outside work to the next one;
  - `error`, `models` — error answers and small model helpers.
- `app/` holds what runs on the Workers runtime around it: background tasks,
  requests to the notification hub, serde forms of the library's types, and
  the storage and response plumbing of streamed transfers. The handlers'
  database work belongs there too, driven by the step functions of `src/`.
- `tests/` exercises the library on concrete values.
