# glenda

Client library for the services and drivers of the glenda microkernel,
verified with Verus.

Every operation of a client is split in two:

- `src/` (verified) builds the message a call sends — tag, message
  registers, buffer and capability slots, modelled by `ipc::Utcb` — and
  decodes the reply, and holds the decisions around the calls: connection
  sequences of the volume, UART and framebuffer clients, the checks on block
  transfers, the splitting of long writes and block transfers into
  messages, the console line buffer, the heap growth policy. Contracts state
  each request and each decoded reply exactly.
- `app/` performs the calls through a `Kernel` trait (IPC, capability
  space, mappings, shared memory, submission rings), encodes the
  library's record types with postcard, and holds the global console and
  heap allocator. Plain values (strings, string lists, method calls) are
  encoded and decoded in `src/encoding`, whose contracts state the bytes.

Layout of `src/`:

| module | contents |
| --- | --- |
| `error` | status codes and their wire numbers |
| `encoding` | the postcard form of strings, string lists and method calls |
| `cap`, `ipc` | capability pointers, message tags and the UTCB model |
| `align`, `bytes`, `wire` | page arithmetic, byte copies, little-endian words |
| `uring`, `shm` | ring and shared-memory descriptors, the wait step |
| `protocol` | protocol ids, operation labels and wire records |
| `client` | service clients: resource, volume, auth, fs, network, process, init, time, terminal, device manager and devices |
| `drivers` | driver clients (UART, framebuffer, ACPI, thermal) and their protocols |
| `console` | the bounded UTF-8 line buffer, kernel and terminal consoles |
| `heap` | heap growth sizes and regions |
