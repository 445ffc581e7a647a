# os_hal

The lowest layer of an operating system: it finds out what hardware a machine
has, sets up the little that a kernel needs to start, and hands both over. It
serves x86_64, ARM64 and RISC-V machines.

The library is written in Rust and verified with Verus. Its functions compute:
they take what registers, firmware tables and buses say as plain values, and
return what is to be written. Every function states in its contract what it
returns for every input, and no function panics where its precondition holds.

## Layout

- `src/hal/`: what every architecture offers the kernel, as traits and types:
  CPU, memory, timer, interrupts, compute devices, power, boot information.
- `src/manifest/`: the hardware manifest, in its fixed-size form and in the form
  for code that can allocate, and its assembly from what was discovered.
- `src/uefi.rs`, `src/acpi.rs`, `src/fdt.rs`: the tables that firmware leaves.
- `src/pci.rs`, `src/compute.rs`: the scan of the configuration space, as a
  machine of requests and answers, and the compute devices that it finds.
- `src/paging.rs`: page tables of three formats, with the translation that they
  stand for.
- `src/irq_table.rs`, `src/clock.rs`, `src/power.rs`, `src/context.rs`: parts
  that the architectures share.
- `src/direct.rs`: direct hardware access with capability tokens.
- `src/report.rs`: the report that the kernel writes when it starts.
- `src/x86_64/`, `src/arm64/`, `src/riscv64/`: the architectures; each has a
  `platform` module that brings the whole machine up.
- `tests/`: tests of the compiled library.
- `app/`: the kernel stub around the library: assembly, registers, ports and the
  entry points.

## What is trusted

One function of the standard library, `String::from_utf8_lossy`, is used through
a wrapper whose contract is believed and not proved (`src/manifest/dynamic.rs`).
What the signature verifier of capability tokens, the CPU identification source
and the interrupt handlers do is up to their implementers: contracts speak of
their results, whatever these are.
