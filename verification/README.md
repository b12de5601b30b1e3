# dircpy

Recursive directory copying, with its decisions proved correct.

- `src/config.rs`: `DirCopy`, the configuration of a copy (source,
  destination, `overwrite`, `overwrite_only_newer`) and its builder methods.
- `src/paths.rs`: paths as vectors of components (the bytes of each name);
  stripping a leading base and appending components.
- `src/run.rs`: `CopyRun`, the copy as a state machine. It is fed the answers
  of the file system (`Event`) and returns what to do next (`Action`); its
  step is specified by the spec function `next`.
- `src/laws.rs`: properties of every step, proved.
- `src/model.rs`: a model of the file system, of what each action does to
  it, and of a copy of a walked list of entries.
- `src/repeat.rs`: over that model, a successful copy mirrors the source
  (the destination may lie inside it), and a second copy after a successful
  one succeeds and changes nothing but times.
- `app/lib.rs`: the driver that performs the actions with `std::fs` and
  `walkdir` (`Build::build`), symbolic links included.
