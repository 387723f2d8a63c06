# tinyvm

The decision core of a small hypervisor, verified with Verus, and the code
around it that touches the hardware.

## The library (`src/`)

- `platform` - the board and the options an image is built for.
- `kernel` - the records the decisions work on: configuration, cores, messages,
  machines.
- `arch` - power management for guests (`smc`, `psci`, `power`), and the
  start-up of a core (`start`, `cache`, `sysregs`).
- `vmm` - building a machine: its memory (`memory`), images (`image`), device
  tree (`device_tree`), host devices (`devices`), cores (`cores`), the order of
  all that (`setup`), and starting it (`boot`). `plan` leads through a series of
  operations that ends with the first failure.

Functions take plain values and say what is to be done. Where an operation has
an outcome that matters, a second function takes the outcome and says how to go
on. Public proof functions state what holds across functions.

The library calls two other crates: `tock-registers` for the arithmetic of
register fields, and `fdt` to recognise a device tree. The functions that make these calls are private, and their
contracts are taken on trust.

## The hypervisor (`app/`)

Carries out what the library decides. `Host` lists what a kernel has to offer.
`firmware` makes the secure monitor calls with `smccc`; `start` and `cache` hold the first
instructions of a core and the cache maintenance instructions, for AArch64.
