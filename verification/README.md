# rafinfo

Reads Fujifilm RAF raw image files from memory: the header (camera name and
format version), the optional image-sequence block, the metadata records with
their decoded values, and the Exif segment of the embedded JPEG preview.

- `src/binary.rs` — the positioned reader (`BufBinaryReader`), its byte-order
  aware integer reads, seeks and skips, and the `Outcome` language in which
  every parser states, from a reader state, what it yields and where it ends.
- `src/tags.rs` — the metadata tags and their codes and names.
- `src/raf.rs` — metadata values, records, the metadata and image-sequence
  blocks and the RAF itself, with their reading specifications and the laws
  they obey (record counts, locality of records, magic numbers).
- `src/exif.rs` — the search for the Exif APP1 segment and the TIFF byte order.
- `src/text.rs` — the printed form of values as a list of parts; floating-point
  quantities are kept as integers and formatted by the caller.
- `app/main.rs` — the command-line program: reads the file named by its second
  argument and prints its metadata.

Every function in `src/` is verified with Verus against its contract; the one
trusted item is the UTF-8 conversion of text fields (`String::from_utf8`).
