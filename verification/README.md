# async_discord

A Discord gateway client library built around a middleware stack, with its
decision logic verified by Verus.

- `src/` is the verified library: session states and their byte encoding,
  the zlib-stream frame buffer, gateway payload decoding, a shard's
  heartbeat and identify decisions, event interception, the event cache,
  the cache and prefix middleware decisions, and REST URLs and headers.
- `app/` is the asynchronous shell: websocket and HTTP connections, task
  spawning, the middleware trait and stack, and the serde wire types. It
  drives the library: it hands each websocket frame and the time to a
  `ShardProcessor` and sends back the messages that it returns.
- `tests/` exercises the library on concrete values.
