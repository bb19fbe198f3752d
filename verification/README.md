# LingBench

A VMM benchmarking tool for Linux: it runs standard benchmark scenarios on
Firecracker, Cloud-Hypervisor, Crosvm and Stratovirt, reads the results from each
guest's serial output and writes an HTML report comparing the VMMs.

## Layout

- `src/` — the library, verified with Verus: configuration, VMM detection and
  launch plans, the Firecracker boot sequence, metric parsing with exact decimals,
  the metrics collector, the state machines that watch a run and drive a batch,
  and report assembly and HTML generation. Each module states its behaviour in
  `requires`/`ensures` contracts; the `law_*` proof functions state properties
  that span several functions or steps.
- `app/` — the `lingbench` program: command-line parsing, file and process I/O,
  Ctrl+C handling, JSON and TOML (de)serialisation, and the floating-point parts
  of the report (axis scaling and value formatting).
- `tests/` — tests of the library on concrete values.
