# tetra_entities

Mobile-station entities of a TETRA stack (ETSI TS 100 392-2): what each of them
does is stated in contracts and proved with Verus.

- `src/umac`: upper MAC. Uplink transfers by random access, fragmentation and
  reserved slots; reception; channel allocation; traffic and stealing.
- `src/mle`: mobile link entity. Cell selection, the operator's survey, link
  failure, routing by protocol discriminator, the network time of a base station.
- `src/mm`: mobility management. Registration, its timers and retries, leaving.
- `src/phy`: physical layer. Splitting of bursts, link supervision, uplink
  scheduling, phases of the modulator, block timing of the device.
- `src/net_control`, `src/net_telemetry`, `src/management`, `src/tnmm`: the
  messages of the control and telemetry channels, and the control worker.
- `src/sap`, `src/tdma`, `src/bits`, `src/config`: primitives, time, bit strings
  and configuration.

The laws that span several operations are the public proof functions named
`law_..`.

`app/` holds what the library is run by: the loops around the entities, the
device and transport traits, signal processing on floating-point samples, and
the encodings of the wire (bitcode and JSON). `tests/` exercises the library.
