# psrx

The core of a PlayStation emulator, written in Verus: every function in
`src/` carries a contract that Verus proves.

- `src/gpu.rs` and `src/gpu/`: the GPU. GP0 command decoding and the
  drawing environment, GP1 display control, VRAM transfers (CPU to VRAM,
  VRAM to CPU, VRAM to VRAM), GPUSTAT, and the integer rasterizer
  (lines, polylines, rectangles, texture sampling, blending).
- `src/gte.rs`: the geometry transformation engine (RTPS, RTPT, NCLIP,
  MVMVA and the register file).
- `src/memory.rs` and `src/memory/`: the memory bus with address
  translation, RAM, scratchpad, BIOS, I/O ports, the routing of CD-ROM,
  controller-port, DMA and timer register accesses, and instruction-cache
  queues.
- `src/interrupt.rs`: the interrupt controller.
- `app/`: what stays outside the proofs: loading a BIOS file, and the
  triangle fills that interpolate with floating point.
- `tests/`: the test suite, run against the compiled library.

Properties that relate several operations (a read returns what a write
stored, a VRAM upload read back returns the uploaded words, a GP1 reset
keeps VRAM, and others) are stated as public proof functions named
`law_*`.
