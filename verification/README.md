# pdf_writer

Writers for PDF content streams (`Content`, `Operation`) and for the
dictionaries that go with them (`Resources`, `ExtGraphicsState`, `SoftMask`),
built on small writers for objects (`Obj`, `Array`, `Dict`) and primitive
values (`bool`, `i32`, `Real`, `Name`, `Str`, `Ref`).

Every writer appends to a byte buffer, and its contract states the exact
bytes it appends; each content operator appends one `op_line`.
`src/encode.rs` defines those bytes, and `src/laws.rs` proves, over those
definitions, that they can be read back (integers, reals, names and strings
decode to the values written), that operands written one at a time give the
same bytes as writing them at once, that appending an `op_line` to a stream of
lines gives a stream with one more line, and that finishing such a stream
gives its lines separated by newlines. `Content::new` starts a stream of
lines and every content operator's contract keeps it one
(`is_line_stream`).

A writer for an open operation, array or dictionary writes its closing bytes
when its `finish` method is called. Real numbers are decimal fixed-point values
(`units / 10^scale`). `app/` turns an `f32` into such a value.
