# modrad-radius

A RADIUS server toolkit with verified packet handling.

- `src/` is the library, verified with Verus: tag-length-value items, RADIUS packets and
  attributes, EAP and CHAP packets (each with read/write round-trip laws), the identifier
  pool and store, packet containers with typed metadata, the input, handler and output
  pipeline steps (Message-Authenticator checking and signing, EAP-Message reading and
  writing, EAP Identity and MD5-Challenge handling), the Response Authenticator transformer,
  and the generic pipeline that runs steps phase by phase.
- HMAC-MD5 and MD5 come from the `hmac` and `md-5` crates, behind two small trusted
  wrappers in `src/digest.rs`.
- `app/` holds the network side: UDP connector and listener on tokio, the shared identifier
  store with its periodic cleanup task, and a monotonic nanosecond clock.
- `tests/` exercises the library on concrete packets.
