# ax

A terminal-first macOS accessibility inspector, written as a verified
library with a thin command-line program around it.

- `src/` is the library, verified with Verus: the catalog of known
  accessibility symbols and its search, choosing and sorting applications,
  the tree of elements (role and viewport pruning, synthetic paths, value
  shortening), display strings of attribute values, typed values for
  `ax set`, parameters for `ax pget`, screenshot targets and image encoding,
  errors and exit codes, and every plain-text report (tables, trees, element
  reports), with and without terminal colors.
- `app/` is the program: argument parsing with `clap`, the macOS
  accessibility and screen-capture calls, JSON output, and printing.
- `tests/` exercises the library on concrete values.
