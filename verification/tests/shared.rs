use vga_writer::screen::BLANK_CELL;
use vga_writer::SharedWriter;

#[test]
fn shared_writer_starts_blank_at_origin() {
    let shared = SharedWriter::new();
    let now = shared.snapshot();
    assert_eq!((now.row(), now.col()), (0, 0));
    assert_eq!(now.cell(0, 0), Some(BLANK_CELL));
    assert_eq!(now.style().bits(), 0x0F);
}

#[test]
fn shared_writer_writes_through_the_lock() {
    let shared = SharedWriter::new();
    shared.write_byte(b'H');
    shared.write_byte(b'i');
    shared.write_byte(b'!');
    let now = shared.snapshot();
    assert_eq!(now.cell(0, 0), Some(0x0F48));
    assert_eq!(now.cell(0, 1), Some(0x0F69));
    assert_eq!(now.cell(0, 2), Some(0x0F21));
    assert_eq!((now.row(), now.col()), (0, 3));
}

#[test]
fn shared_writer_gives_the_lock_back_after_each_call() {
    let shared = SharedWriter::new();
    shared.write_str("one\n");
    shared.write_str("two");
    shared.write_byte(b'!');
    let now = shared.snapshot();
    assert_eq!((now.row(), now.col()), (1, 4));
    assert_eq!(now.cell(0, 0), Some(0x0F6F));
    assert_eq!(now.cell(1, 0), Some(0x0F74));
    assert_eq!(now.cell(1, 3), Some(0x0F21));
}

#[test]
fn shared_clear_screen_blanks_and_homes() {
    let shared = SharedWriter::new();
    shared.write_str("to be wiped\n");
    shared.clear_screen();
    let now = shared.snapshot();
    assert_eq!((now.row(), now.col()), (0, 0));
    for row in 0..25 {
        for col in 0..80 {
            assert_eq!(now.cell(row, col), Some(BLANK_CELL));
        }
    }
}

#[test]
fn snapshot_is_detached_from_later_writes() {
    let shared = SharedWriter::new();
    shared.write_byte(b'a');
    let earlier = shared.snapshot();
    shared.write_byte(b'b');
    assert_eq!(earlier.cell(0, 1), Some(BLANK_CELL));
    assert_eq!(shared.snapshot().cell(0, 1), Some(0x0F62));
}

#[test]
fn two_writers_of_single_bytes_each_leave_a_whole_cell() {
    for first_is_x in [true, false] {
        let shared = SharedWriter::new();
        let one = &shared;
        let other = &shared;
        if first_is_x {
            one.write_byte(b'x');
            other.write_byte(b'y');
        } else {
            other.write_byte(b'y');
            one.write_byte(b'x');
        }
        let now = shared.snapshot();
        assert_eq!((now.row(), now.col()), (0, 2));
        let first = now.cell(0, 0).expect("on the grid");
        let second = now.cell(0, 1).expect("on the grid");
        assert!(
            (first, second) == (0x0F78, 0x0F79) || (first, second) == (0x0F79, 0x0F78),
            "cells were {first:#06x} and {second:#06x}"
        );
        assert_eq!(now.cell(0, 2), Some(BLANK_CELL));
    }
}

#[test]
fn interleaved_messages_lose_no_byte() {
    let shared = SharedWriter::new();
    let one = &shared;
    let other = &shared;
    for _ in 0..100 {
        one.write_byte(b'a');
        other.write_byte(b'b');
    }
    let now = shared.snapshot();
    assert_eq!((now.row(), now.col()), (2, 40));
    let mut a = 0;
    let mut b = 0;
    for index in 0..200u16 {
        let value = now.cell((index / 80) as u8, (index % 80) as u8).expect("on the grid");
        match value {
            0x0F61 => a += 1,
            0x0F62 => b += 1,
            other => panic!("torn or foreign cell {other:#06x} at {index}"),
        }
    }
    assert_eq!((a, b), (100, 100));
}

#[test]
fn shared_write_char_writes_the_low_byte() {
    let shared = SharedWriter::new();
    shared.write_char('Z');
    shared.write_char('\u{20ac}');
    let now = shared.snapshot();
    assert_eq!(now.cell(0, 0), Some(0x0F5A));
    assert_eq!(now.cell(0, 1), Some(0x0FAC));
    assert_eq!((now.row(), now.col()), (0, 2));
}
