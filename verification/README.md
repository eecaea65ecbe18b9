# Base Search

Base Search brings spreadsheets of business records into one local database, answers
searches and summaries over them, exports results, and serves the workspace to a
browser through a small launcher.

## Layout

- `src/` is the library: what the program decides, verified with
  [Verus](https://github.com/verus-lang/verus). What it computes in floating point, and
  the reading of saved preferences, stay with the program. Each function states in `requires` and
  `ensures` what it takes and gives; properties that relate several functions are
  public proof functions beside them.
  - `import/` finds the header of a table, decides what its columns mean, and turns
    rows into records.
  - `olap/` is the columnar projection: the statements that fill and read it, its
    identity, and how a new one takes the place of the old.
  - `launcher/` is the state of a launch, the choice of a port, who may share a
    workspace, and what is remembered between starts.
  - `analytics`, `assembly`, `figures`, `presentation` and `reports` hold summaries and
    how they are shown; `export` writes them out; `platform` finds the workspace.
  - `text`, `number`, `calendar`, `paths`, `ordered` and `counting` are the vocabulary
    that the other modules are stated in.
- `app/` is the program around the library: windows, files, sockets, processes and
  the databases. It asks the library what to do, does it, and tells it what happened.
- `tests/` runs the library.

## What is trusted

Contracts of outside calls are believed, not proved. They stand in `text`, `calendar`,
`digest`, `export`, `import/rows`, `launcher/health` and `olap/meta`, each with a
comment that names the call and says what is claimed of it.

## Floating point

The library does no floating-point arithmetic. A measured number is carried by its
bits (`Real`), and the program hands in what it computed or rendered from it.
