# kernel

Building blocks of an ARM64 microkernel, written in Verus with their
behaviour stated as contracts and proved.

- `src/frame/arch/page_table.rs` — user page-table descriptors, index
  arithmetic, L3 population and the L1/L2 install/remove protocol.
- `src/frame/arch/mmu.rs` — kernel identity map with W^X permissions,
  TTBR/TCR/MAIR/SCTLR encodings, TLBI operands.
- `src/frame/arch/exception.rs`, `speculation.rs`, `register_state.rs` —
  syndrome decoding and EL0 dispatch decisions, ID-register feature
  parsing, saved-state layout.
- `src/frame/slab.rs`, `page_slab.rs`, `lock.rs` — the slab store behind
  the object arenas (in memory, and backed by a page drawn from the root
  pool) and ordered locks.
- `src/frame/fields.rs` — the badge-range routing table, the FIFO waiter
  list threaded through wait entries by index, and message-queue slots.
- `src/frame/capabilities.rs`, `src/capability.rs` — capability table
  entries, bounds-checked slot access and the free list through empty
  slots.
- `src/frame/mapping.rs` — installing a Space's L3 table in an Observer's
  page tables and removing it again.
- `src/frame/cores.rs` — syscall results written into the saved registers.
- `src/space_manager.rs`, `space.rs` — root memory pool, VA assignment,
  Space creation, split and merge.
- `src/kernel_state.rs` — the kernel-wide state behind ordered locks, the
  IRQ routing table and the ASID allocator.
- `src/observer.rs`, `pulsar.rs`, `field.rs`, `time.rs`, `scheduler.rs` —
  kernel objects, the Observer lifecycle state machine and scheduling
  profile.

Laws relating several operations are public proof functions whose names
start with `law_`.

`app/` holds what only the hardware can do: system-register access, TLB
maintenance and the page-table wiring through the kernel linear map, and a
boot front end that computes the kernel's initial state.
