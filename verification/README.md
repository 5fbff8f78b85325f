# pounce_algorithm

The decisions of an interior-point solver for nonlinear programs, with their
contracts proved by Verus.

- `src/` is the library: how options configure the algorithm, when the main loop
  stops, which driver runs a model, when it is solved a second time, what is
  refused, and what is reported. It does no I/O and leaves the linear algebra and
  the iterations to the solver engines; the arithmetic that its rules need is its
  own, and proved.
- `app/` runs solves: it reads options files, prints, hands models to the solver
  engines through the traits in `app/engine.rs`, and follows the library.
- `tests/` run the library on concrete values.

A number is a binary64 value held by its bit pattern. `src/number.rs` gives it
the comparisons and the arithmetic of IEEE 754, to the last bit; `src/rounding.rs`
and `src/quotient.rs` prove that every rounding goes to the nearest number.

| Module | What it decides |
| --- | --- |
| `options`, `from_options`, `alg_builder`, `sqp_options`, `feral` | what the options configure |
| `assembly` | which strategies a builder describes |
| `conv_check` | when the main loop stops |
| `dispatch`, `driver` | what is refused, and which runs a solve consists of |
| `second_opinion`, `retry` | when a model is solved again, and whose answer stands |
| `penalty`, `feasibility` | how the l1 penalty grows, and how its point is judged |
| `solve`, `status`, `statistics` | what a run is given, and what is made of its outcome |
| `iterates`, `batch`, `requests` | iterates, batches of models, files and journals |

Public proof functions named `law_*` state what holds across functions.
