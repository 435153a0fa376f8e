# zk_benchmarks

ZK proof benchmarks for completed load-test runs, with their decisions verified by Verus.

Dry-run benchmarks prove the full confirmed load-test range. Cluster benchmarks prove the single
fullest confirmed block by gas, using transaction count and then the lowest block number as
tie-breakers.

## Layout

- `src/` is the verified library. What waits for the outside is a state machine there: `action` says
  what is to be done, `on` takes what came of it, `into_result` hands out the result.
  - `target`: selection of the blocks to prove.
  - `safe_l2`, `poll`, `prove`, `run`: the benchmark run, from the wait for a safe block to the
    summary.
  - `executor`: setup, run and cleanup of a load test.
  - `cli`, `report`: the benchmark command, which takes its load test and its benchmark from start
    to result, and the lines that it prints.
  - `tracker`, `summary`: execution stats, with cycle counts in the order of their names.
  - `laws`, `load_laws`, `command_laws`: what holds of each as a whole, whatever happens outside.
  - `outside`: the calls into other crates, whose contracts are believed, not proved.
- `tests/` runs the library.
- `app/` is the binary: it performs the actions and reports what came of them.

## Usage

```bash
base-zk-benchmarks path/to/config.yaml --mode dry-run
```

Override the default local endpoints with `--rollup-rpc-url` for the op-node RPC and
`--zk-prover-url` for the prover RPC.
