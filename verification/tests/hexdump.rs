use mos6502::memory_hexdump;
use mos6502::memory_hexdump_string;
use mos6502::Memory;

#[test]
fn hexdump_rows_hold_cells() {
    let mut memory = Memory::new();
    memory.write(0x0000, 0x41);
    memory.write(0x0011, 0x02);
    let rows = memory_hexdump(&memory, 0x0000, 0x001F);
    assert_eq!(rows.len(), 2);
    assert_eq!(rows[0].0, 0x0000);
    assert_eq!(rows[0].1[0], 0x41);
    assert_eq!(rows[0].2[0], 'A');
    assert_eq!(rows[1].0, 0x0010);
    assert_eq!(rows[1].1[1], 0x02);
    assert_eq!(rows[1].2[1], '.');
}

#[test]
fn hexdump_string_renders_line() {
    let mut memory = Memory::new();
    memory.write(0x0000, 0x41);
    let text = memory_hexdump_string(&memory, 0x0000, 0x000F);
    assert_eq!(
        text,
        "[0x0000] 41 00 00 00 00 00 00 00 00 00 00 00 00 00 00 00 | A............... |"
    );
}

#[test]
fn hexdump_string_joins_lines() {
    let memory = Memory::new();
    let text = memory_hexdump_string(&memory, 0x0000, 0x001F);
    assert_eq!(text.lines().count(), 2);
}

#[test]
fn hexdump_leaves_out_top_cell() {
    let memory = Memory::new();
    let rows = memory_hexdump(&memory, 0xFFF0, 0xFFF0);
    assert_eq!(rows.len(), 1);
    assert_eq!(rows[0].1.len(), 15);
}
