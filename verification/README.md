# rsjs

The core of a JavaScript/TypeScript scripting layer for Godot, written in
Verus. `src/` holds the verified library:

- `paths`, `path_laws`: module names: virtual-path normalization, `.js`
  completion, relative import resolution and loading decisions, with the
  normalization laws.
- `typescript`: type stripping through oxc, syntax-error reporting, script
  loading.
- `console`: the text of `console.log`, `console.trace` and `console.error`.
- `signals`: callback ids, the callback registry and the queue of fired
  signals, with the dispatch rule.
- `runtime`: per-frame scheduling of script nodes and the execution deadline.
- `proxy`: the naming and selection rules used by node and value proxies.
- `errors`, `color`, `engine`: error reports, color packing, small tables.

`app/` is the Godot extension around it: the Godot classes, the QuickJS
runtime, the floating-point value classes and the marshalling of values.
