# stm32f7_discovery

A device library for the STM32F746NG discovery board, written in Verus. The library holds
the board-independent logic of the drivers, each function with a contract that Verus proves:

- `lcd`: colors and their pixel formats, the ARGB8888 and AL88 frame buffers, text output
  with the 8x8 font, the audio level display, and the LCD controller timing;
- `system_clock`: PLL clock speed, SysTick reload value, tick and millisecond conversions;
- `gpio`, `init`: pin reservation per port and the board's pin mapping, which is proved to
  map no pin twice; clock, SAI, SDRAM and audio codec settings;
- `i2c`, `touch`: register encodings, the register operations of each transfer, device
  setups, and the decoding of touch points;
- `sd`: card status and response decoding, CSD parsing, the checks and FIFO chunks of block
  transfers (a block holds the data filled up with zeros);
- `ethernet`: transmit descriptors and ring, the receive buffer layout and ring, PHY status;
- `exti`, `interrupts`, `random`, `semi_hosting`, `task_runtime`: line and interrupt
  bookkeeping, the random number generator's decisions, buffered host output and the task
  scheduling order.

`app/` holds what runs around it: the global clock, the drivers' loops on the peripheral
registers, text output through `fmt::Write`, the executor's futures, and a demo `main`.
