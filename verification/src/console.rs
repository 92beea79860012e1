//! The global console instance: a lazily-initialized spin lock around the
//! console writer, exposed as the single serialized output entry point.
//!
//! Every write in the system goes through [`console_write`]: resolve the
//! lazy singleton — constructing the console on first use — take its lock,
//! render, release. Concurrent callers serialize strictly through the lock.

use vstd::prelude::*;
use crate::lazy::SyncLazy;
use crate::spinlock::Spinlock;
use crate::vga::VgaWriter;
use crate::vga::initial_console;
use crate::vga::write_bytes;

verus! {

/// A console lock at rest: well-formed, free, and guarding a well-formed
/// writer.
pub open spec fn console_ready(lock: Spinlock<VgaWriter>) -> bool {
    &&& lock.inv()
    &&& !lock.is_locked()
    &&& lock.value().wf()
}

/// Builds the value the global instance is lazily initialized with: a free
/// lock around a freshly cleared console writer.
pub fn new_console_lock() -> (lock: Spinlock<VgaWriter>)
    ensures
        console_ready(lock),
        lock.value()@ == initial_console(),
{
    Spinlock::new(VgaWriter::new())
}

/// The single formatted-output entry point: resolves the global instance,
/// initializing it on the first call from any context, acquires its lock,
/// writes `text` through the console driver, and releases.
///
/// On every call after the first, the grid and cursor change exactly as
/// [`write_bytes`] says; on the first, they change that way starting from
/// whatever state the initializer produced.
pub fn console_write<F: Fn() -> Spinlock<VgaWriter>>(
    console: &mut SyncLazy<Spinlock<VgaWriter>, F>,
    text: &[u8],
)
    requires
        old(console).wf(),
        !old(console).is_initialized() ==> call_requires(old(console).initializer(), ()),
        !old(console).is_initialized() ==> (forall|w: Spinlock<VgaWriter>|
            call_ensures(old(console).initializer(), (), w) ==> console_ready(w)),
        old(console).is_initialized() ==> console_ready(old(console).value()),
    ensures
        final(console).wf(),
        final(console).is_initialized(),
        console_ready(final(console).value()),
        final(console).initializer() == old(console).initializer(),
        old(console).is_initialized() ==> final(console).value().value()@ == write_bytes(
            old(console).value().value()@,
            text@,
        ),
        !old(console).is_initialized() ==> (exists|w: Spinlock<VgaWriter>|
            call_ensures(old(console).initializer(), (), w)
                && final(console).value().value()@ == write_bytes(w.value()@, text@)),
{
    let lock = console.force_mut();
    proof {
        if old(console).is_initialized() {
            assert(*lock == old(console).value());
        } else {
            assert(call_ensures(old(console).initializer(), (), *lock));
        }
        assert(console_ready(*lock));
    }
    let mut guard = lock.lock();
    guard.data.write(text);
    guard.release(lock);
}

} // verus!
