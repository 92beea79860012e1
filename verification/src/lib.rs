//! Freestanding runtime substrate of a bare-metal kernel: a spin lock, a
//! lazily-initialized singleton built on it, and a text-mode console driver
//! over a fixed 25x80 grid of 16-bit character cells, composed into a single
//! serialized formatted-output path.

pub mod buildpaths;
pub mod console;
pub mod lazy;
pub mod protocol;
pub mod spinlock;
pub mod vga;

pub use console::console_write;
pub use console::new_console_lock;
pub use lazy::Cell;
pub use lazy::SyncLazy;
pub use spinlock::Spinlock;
pub use spinlock::SpinlockGuard;
pub use vga::VgaChar;
pub use vga::VgaColor;
pub use vga::VgaWriter;
