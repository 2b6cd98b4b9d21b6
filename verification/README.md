# userspace

A userspace systems layer whose logic is verified with Verus: parsing of ELF
object files (headers, program and section headers, string, symbol, hash,
relocation, note, group and dynamic tables, compact relative relocations),
the decisions of program loading, a small image file format, and the
decoding of raw system-call results.

## Layout

- `src/` — the verified library. Every public function states what it
  returns as a function of its inputs, over mathematical models (`Seq`,
  integers) of the ELF structures; laws relating several functions are
  public proof functions next to them (for example, that program-header
  validation accepts exactly the tables meeting the gABI constraints, that
  decoding an encoded image gives it back, and that relocating a storage
  unit there and back restores it).
- `tests/` — tests over concrete ELF images built byte by byte.
- `app/` — the operating-system edges: reading and writing files, replacing
  the process image, and a report of everything the library reads from an
  ELF file.
