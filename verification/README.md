# hir: checker diagnostics

The errors that the semantic checker of an IEC 61131-3 language server
reports, and the IDE diagnostics they render to: message, severity, stable
code and description, notes, related locations, tags and quick fixes.

Everything an error refers to (names, type names, spans, the results of a
search for similar names) is held resolved in the error itself, so rendering
is a pure function of the error, verified with Verus against an exact
specification of the diagnostic (`spec_to_diagnostic`).

Layout of `src/`:

- `diag`, `hir`, `text`, `order`, `seqs`, `std_text`, `source`, `utils`:
  the diagnostic model, the resolved references errors carry, message
  building, byte-order sorting, source-text slicing, candidate lists.
- `e00_syntax` … `e15_pragma`: the numbered catalogue (`E00xx` … `E15xx`);
  `catalogue` proves that each family's codes lie in its range and that
  every diagnostic carries its error's code and description.
- `e0_syntax` … `e10_control_flow`, `analysis_error`: the second catalogue.
- the remaining modules: the first, uncoded, catalogue.

`app/` converts between these types and those of `auto_lsp` and the
language server protocol.
