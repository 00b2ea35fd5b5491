# aerofoil

Aeron transport abstractions for stream processing, verified with Verus.

- `src/transport`: the `AeronPublisher` / `AeronSubscriber` traits, the
  zero-copy `ClaimBuffer` / `FragmentBuffer` types, the `ChannelUri`
  builders, the named-endpoint `Discovery` registry, the in-memory
  `MockPublisher` / `MockSubscriber`, and the mapping of Rusteron and
  aeron-rs results onto `TransportError`.
- `src/nodes`: the state and decisions of the stream-processing nodes: which
  parsed value a subscriber node keeps, when a publisher node offers a value,
  and what back-pressure and errors do.
- `app`: the Aeron client adapters (Rusteron, aeron-rs), the media-driver
  process guard, the process-global discovery registry and the Wingfoil
  graph nodes, all driving the verified library.
