# brotli (encoder types)

The data types that a Brotli encoder passes between its stages, with their
contracts, and one-shot helpers that run the Brotli stream decoder.

- `src/enc/interface.rs`: block switches, literal prediction modes, the
  copy, dictionary and literal commands, and `Command::free_array`.
- `src/enc/encode.rs`: encoder parameters, modes, stream states, ring buffer.
- `src/enc/oneshot.rs`: one-shot compression and decompression.
- `src/enc/buffer.rs`: an in-memory byte queue.
- `app/lib.rs`: what needs outside traits (`alloc_no_stdlib::Allocator`,
  `std::io`).
