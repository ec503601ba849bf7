# imgen_pro

The core of Imgen Pro, a local-first studio for image generation and hybrid
marketing design, written in Verus: every function in `src/` carries a
contract that Verus proves.

- `src/` — the verified library: configuration and its validation, the
  generation job store and its transitions, command lines for
  `stable-diffusion.cpp` (`sd-cli` and the managed `sd-server`), the server
  adapter's request plan, polling and log reading, the creative planner's
  request and reply handling, the SVG design renderer, and the decisions of
  the loopback automation API.
- `tests/` — tests on concrete values, run against the compiled library.
- `app/` — a command-line front end around the library: file persistence,
  child processes, HTTP calls, the automation server, and the few
  floating-point computations (progress estimates) that the library leaves
  to its caller.

Calls into outside crates (`uuid`, `chrono`, `base64`, `mime_guess`, the URL
parser re-exported by `reqwest`) and a few `std` functions without a Verus
specification go through small trusted wrappers whose contracts are
documented where they are declared.

The job store keeps its jobs in a vector with pairwise distinct ids rather
than a `HashMap<String, _>`: vstd's `HashMap` specifications hold only for
key types whose hashing it models (the integer types), so a map keyed by
`String` would give no contract to prove the store's operations against.
