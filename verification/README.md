# axcli

Host-side command-line tool and daemon for microVM and LibOS instances of an
x86-64 type-1.5 hypervisor. The logic is a library verified with Verus; a thin
binary around it does the I/O.

## Layout

- `src/` — the verified library.
  - Configuration and resources: `config`, `resource` (guest configuration
    checks, block drives, VFIO passthrough settings), `memory` (guest memory
    layout), `allocator` (GSI allocation over `vm-allocator`), `initrd`,
    `bootparams` (zero page and e820 map), `regs` (GDT, page tables and
    special registers for 64-bit boot), `legacy` (serial and i8042 ports).
  - Instance interface: `ioctl_code` (request numbers and create arguments),
    `console` (shared console ring), `block` (virtio-blk queue and requests,
    block notify ring), `vfio` (PCI capabilities, MSI-X, device upkeep).
  - Control socket: `command` (request parsing), `control`, `control_step`,
    `control_poll` (the control state machine and its timers), `scheduler`,
    `hyperalloc` (HyperAlloc policy and scheduler decisions), `report`,
    `control_report`, `scheduler_report` (answer lines).
  - LibOS side: `elf_load` (ELF loading plans over `goblin`, junction
    arguments and auxiliary vector), `scf` (system-call forwarding queue),
    `proxy` (forwarded calls and the descriptor table), `pagecache`,
    `shared_pages`.
  - `cli`: the subcommands and their arguments.
  - `text`, `utils`: string and number helpers.
- `app/` — the binary: argument parsing (`clap`), JSON configuration
  (`serde`), ioctls and shared rings (`libc`), kernel loading
  (`linux-loader`, `vm-memory`), the block backend and the VFIO runtime.
- `tests/` — tests of the library.
