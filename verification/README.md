# x64emu

An x86 emulator whose core is proved with Verus.

- `src/hardware`: physical memory and the processor's registers (general purpose, flags,
  control, segment, descriptor-table and model-specific registers), each with the
  mathematical value its fields encode.
- `src/device.rs`, `src/device/`: the devices on the port and memory-mapped buses (a test
  DMA controller and a test timer) and the queue of raised interrupt lines.
- `src/emulator/access`: the machine as instructions see it: segmentation, paging with a
  TLB, data, code and stack accesses, port I/O, model-specific registers, descriptors, task
  switches.
- `src/emulator/instruction`: decoding (`parse`), the opcode tables of the three operand
  sizes (`opcode`) and the execution of each operation (`exec`).
- `src/emulator/interrupt.rs`: the queue of waiting interrupts and their delivery.
- `src/emulator.rs`: one step of the emulator.
- `app/`: the program around the library: arguments, loading images, the timer's clock, the
  register dump and the GDB remote stub.
- `tests/`: tests of the library on concrete values.
