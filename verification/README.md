# ehci

A driver for USB 2.0 EHCI host controllers with a machine-checked core.

- `src/` is the verified library: the bit layouts of the controller's
  registers and of the data structures it reads from memory (queue heads,
  transfer descriptors, the periodic frame list), the setup packets of control
  requests, the walk of the extended capability chain and the search for the
  legacy support capability, the BIOS-to-OS ownership handshake (stated over
  a model of the accesses to PCI configuration space that `PciAccess`
  implementations promise), the order of the steps of controller and device
  initialization, the answer to interrupts, and the transfers that give a new
  device its address and read its device descriptor. `bitfield.rs` holds
  the field read/write primitives and their laws (a field reads back what was
  written, other fields are unchanged).
- `app/` is the rest: the memory-mapped register blocks and memory layouts,
  volatile reads and writes, waiting on the hardware, and the async tasks.
  It runs the step functions of `src/` and performs the actions they ask
  for; the register values it writes come from `src/`. What it keeps for
  itself is how to wait (delays, wakers, polling) and logging.
- `tests/` runs the library on concrete values.
