# chapeliser

The verified core of a tool that distributes a single-machine workload
across the locales of a Chapel cluster.

- `src/abi.rs`: result codes, partition and gather strategies, partitions of
  a collection into slices (per-item and chunked), the completeness and
  overlap checks, gather conservation and per-locale memory budgets, with the
  laws that the partitions obey.
- `src/text.rs`: string helpers: comparison, identifier stems, decimal
  notation, upper case.
- `src/templates.rs`: the fixed text of the emitted artifacts and the
  functions that fill in their slots.
- `src/codegen.rs`: the Chapel program (with lifecycle, retry and checkpoint
  settings), Zig bridge, C header and build script of a workload, the names of the files they go to, the decisions of a build,
  and the laws that tie the artifacts to each other.
- `app/`: the file-system and process side: writing the artifacts, probing
  the compilers, running the build script and the distributed program, and
  serialisable copies of the library's types.
- `tests/`: tests of the library on concrete values.
