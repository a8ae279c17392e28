# tbc_wdb_parser

Reads a World of Warcraft 2.4.3 client item cache (`itemcache.wdb`) and writes
its items as a cmangos `item_template` `REPLACE INTO` script.

- `src/` is the library, verified with Verus: the cache header, the record
  layout of each client build, the parse of records, the column values of an
  item (with the clamping and escaping the table needs) and the statement text.
- `app/main.rs` is the command-line tool
  `export_sql <itemcache.wdb> <item_template.sql>`: it reads and writes the
  files and writes the floating-point columns, which the library hands out as
  `f32` bit patterns.
- `tests/` runs the library on hand-built cache files.
