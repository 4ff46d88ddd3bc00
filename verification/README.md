# fabela

A tiny JavaScript runtime built on QuickJS, with native `console`, `fs`, `os`,
`child_process`, `registry` and `sqlite` modules, and the ability to run a
script embedded at the end of its own executable.

- `src/` is the verified library (Verus): the embedded-payload format and the
  extraction that reads it, the steps of a script run (engine start, file
  read, evaluation, pending jobs), the command-line decisions, the messages
  carried by errors (how an error is displayed comes from the `thiserror`
  derive on the program's copy of the error type), and the value rules of the
  native modules.
- `app/` is the program around it: the command line, the QuickJS engine, the
  file system, SQLite and the registry, each doing the operations that the
  library asks for.
- `tests/` exercises the library on concrete values.
