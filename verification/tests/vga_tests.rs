use kernel::VgaChar;
use kernel::VgaColor;
use kernel::VgaWriter;

fn blank() -> VgaChar {
    VgaChar::new(0, VgaColor::White, VgaColor::White)
}

#[test]
fn cell_round_trip() {
    let colors = [VgaColor::Black, VgaColor::White];
    for c in 0..=255u8 {
        for background in colors {
            for foreground in colors {
                let cell = VgaChar::new(c, background, foreground);
                assert_eq!(cell.character(), c);
                assert_eq!(cell.foreground_code(), foreground.code());
                assert_eq!(cell.background_code(), background.code());
            }
        }
    }
}

#[test]
fn cell_encoding_layout() {
    let cell = VgaChar::new(b'A', VgaColor::White, VgaColor::Black);
    assert_eq!(cell.0, (15u16 << 12) | b'A' as u16);
    let cell = VgaChar::new(b'z', VgaColor::Black, VgaColor::White);
    assert_eq!(cell.0, (15u16 << 8) | b'z' as u16);
}

#[test]
fn fresh_console_is_blank() {
    let writer = VgaWriter::new();
    assert_eq!(writer.cursor_row(), 0);
    assert_eq!(writer.cursor_col(), 0);
    for row in 0..25 {
        for col in 0..80 {
            assert_eq!(writer.cell_at(row, col), blank());
        }
    }
}

#[test]
fn newline_handling() {
    let mut writer = VgaWriter::new();
    writer.write(b"AB\nCD");
    assert_eq!(writer.cell_at(0, 0).character(), b'A');
    assert_eq!(writer.cell_at(0, 1).character(), b'B');
    for col in 2..80 {
        assert_eq!(writer.cell_at(0, col), blank());
    }
    assert_eq!(writer.cell_at(1, 0).character(), b'C');
    assert_eq!(writer.cell_at(1, 1).character(), b'D');
    for col in 2..80 {
        assert_eq!(writer.cell_at(1, col), blank());
    }
    assert_eq!(writer.cursor_row(), 1);
    assert_eq!(writer.cursor_col(), 2);
}

#[test]
fn written_cells_carry_the_current_colors() {
    let mut writer = VgaWriter::new();
    writer.write(b"A");
    let cell = writer.cell_at(0, 0);
    assert_eq!(cell.character(), b'A');
    assert_eq!(cell.foreground_code(), VgaColor::Black.code());
    assert_eq!(cell.background_code(), VgaColor::White.code());
}

#[test]
fn line_wrap() {
    let mut writer = VgaWriter::new();
    let row: Vec<u8> = (0..80).map(|i| b'a' + (i % 26) as u8).collect();
    writer.write(&row);
    assert_eq!(writer.cursor_row(), 1);
    assert_eq!(writer.cursor_col(), 0);
    writer.write(b"Z");
    assert_eq!(writer.cell_at(1, 0).character(), b'Z');
    assert_eq!(writer.cursor_row(), 1);
    assert_eq!(writer.cursor_col(), 1);
}

#[test]
fn scroll_after_overflowing_the_grid() {
    let mut writer = VgaWriter::new();
    let mut text: Vec<u8> = Vec::new();
    for i in 0..(25 * 80) {
        text.push(b'A' + (i % 26) as u8);
    }
    writer.write(&text);
    assert_eq!(writer.cursor_row(), 25);
    assert_eq!(writer.cursor_col(), 0);

    let mut old_row1: Vec<VgaChar> = Vec::new();
    for col in 0..80 {
        old_row1.push(writer.cell_at(1, col));
    }

    writer.write(b"Q");
    assert_eq!(writer.cell_at(24, 0).character(), b'Q');
    for col in 0..80 {
        assert_eq!(writer.cell_at(0, col), old_row1[col]);
    }
    assert_eq!(writer.cursor_row(), 24);
    assert_eq!(writer.cursor_col(), 1);
}
