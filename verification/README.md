# mame_frontend

The logic of a desktop front end for the MAME emulator, written in Verus: each function
states its behaviour in `requires` / `ensures` and Verus proves it.

- `src/` is the verified library: settings validation and persistence merging, the
  precedence of configuration layers, launch argument building, the `-listxml`,
  `-getsoftlist` and BIOS metadata parsers (on top of `quick_xml`), ROM audit
  classification, catalog import rows and query plans, collections, favorites, history,
  controller profiles, artwork identifiers and the bundled-runtime check. Laws that span
  several functions are public proof functions named `law_*`.
- `tests/` runs the library on concrete values.
- `app/` is a small command-line program around the library: it reads and writes the
  settings file, inspects paths and runs MAME, and hands the results to the library.

Where the library needs what only the filesystem, a process or the database can tell
(whether a path exists, what MAME printed, which rows a query returned), it takes that
as a plain value, and its contract holds for every such value.
