use kernel::Spinlock;
use kernel::SyncLazy;
use kernel::VgaColor;
use kernel::VgaWriter;
use kernel::console_write;
use kernel::new_console_lock;

#[test]
fn first_write_initializes_and_renders() {
    let mut console: SyncLazy<Spinlock<VgaWriter>, fn() -> Spinlock<VgaWriter>> =
        SyncLazy::new(new_console_lock);
    console_write(&mut console, b"Hi");
    let writer = console.force().get();
    assert_eq!(writer.cell_at(0, 0).character(), b'H');
    assert_eq!(writer.cell_at(0, 1).character(), b'i');
    assert_eq!(writer.cursor_row(), 0);
    assert_eq!(writer.cursor_col(), 2);
}

#[test]
fn writes_accumulate_across_calls() {
    let mut console: SyncLazy<Spinlock<VgaWriter>, fn() -> Spinlock<VgaWriter>> =
        SyncLazy::new(new_console_lock);
    console_write(&mut console, b"Next number is: 0\n");
    console_write(&mut console, b"Next number is: 1\n");
    let writer = console.force().get();
    assert_eq!(writer.cell_at(0, 16).character(), b'0');
    assert_eq!(writer.cell_at(1, 16).character(), b'1');
    assert_eq!(writer.cursor_row(), 2);
    assert_eq!(writer.cursor_col(), 0);
}

#[test]
fn console_output_uses_black_on_white() {
    let mut console: SyncLazy<Spinlock<VgaWriter>, fn() -> Spinlock<VgaWriter>> =
        SyncLazy::new(new_console_lock);
    console_write(&mut console, b"x");
    let cell = console.force().get().cell_at(0, 0);
    assert_eq!(cell.foreground_code(), VgaColor::Black.code());
    assert_eq!(cell.background_code(), VgaColor::White.code());
}
