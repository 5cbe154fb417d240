//! Memory hexdump: rows of sixteen cells with their addresses, as raw
//! values and as a rendered text block. The top cell of the address
//! space is left out of the dump, as the display convention prescribes.

use vstd::prelude::*;
use crate::memory::Memory;
use crate::memory::MEMORY_SIZE;
use crate::text::push_char;
use crate::text::push_hex16;
use crate::text::push_hex8;
use crate::text::push_str_chars;
use crate::text::spec_hex16;
use crate::text::spec_hex8;

verus! {

/// One dumped row: the row's base address, its cell values, and their
/// printable-character rendering.
pub type MemoryDumpResult = Vec<(u16, Vec<u8>, Vec<char>)>;

/// How many cells of a row are dumped: sixteen, or fewer at the very
/// top of the address space.
pub open spec fn spec_row_limit(addr: int) -> int {
    if 0xffff - addr < 16 {
        0xffff - addr
    } else {
        16
    }
}

/// The printable rendering of a cell: ASCII control codes show as a
/// dot.
pub open spec fn spec_printable(b: u8) -> char {
    if b < 0x20 || b == 0x7f {
        '.'
    } else {
        b as char
    }
}

/// The cell values of one row.
pub open spec fn spec_row_bytes(mem: Seq<u8>, addr: int) -> Seq<u8> {
    Seq::new(spec_row_limit(addr) as nat, |i: int| mem[addr + i])
}

/// The printable rendering of one row.
pub open spec fn spec_row_chars(mem: Seq<u8>, addr: int) -> Seq<char> {
    Seq::new(spec_row_limit(addr) as nat, |i: int| spec_printable(mem[addr + i]))
}

/// The dumped rows from `addr` to `end`, sixteen cells apart.
pub open spec fn spec_dump_rows(mem: Seq<u8>, addr: int, end: int) -> Seq<(u16, Seq<u8>, Seq<char>)>
    decreases end + 16 - addr,
    when addr >= 0
{
    if addr > end {
        Seq::empty()
    } else {
        seq![((addr as u16), spec_row_bytes(mem, addr), spec_row_chars(mem, addr))]
            + spec_dump_rows(mem, addr + 16, end)
    }
}

/// The mathematical image of a dump.
pub open spec fn spec_dump_view(v: Seq<(u16, Vec<u8>, Vec<char>)>) -> Seq<(u16, Seq<u8>, Seq<char>)> {
    Seq::new(v.len(), |k: int| (v[k].0, v[k].1@, v[k].2@))
}

/// The hexadecimal cell renderings of one row, two digits and a space
/// per cell, from cell `k` on.
pub open spec fn spec_hex_cells(mem: Seq<u8>, addr: int, k: int) -> Seq<char>
    decreases spec_row_limit(addr) - k,
    when k >= 0
{
    if k >= spec_row_limit(addr) {
        Seq::empty()
    } else {
        spec_hex8(mem[addr + k]) + seq![' '] + spec_hex_cells(mem, addr, k + 1)
    }
}

/// One rendered dump line: the bracketed address, the hexadecimal
/// cells, and the printable cells, with the short final row padded as
/// the renderer pads it.
pub open spec fn spec_dump_line(mem: Seq<u8>, addr: int) -> Seq<char> {
    let limit = spec_row_limit(addr);
    "[0x"@ + spec_hex16(addr as u16) + "] "@ + spec_hex_cells(mem, addr, 0) + (if limit < 16 {
        "   "@
    } else {
        Seq::empty()
    }) + "| "@ + spec_row_chars(mem, addr) + (if limit < 16 {
        " "@
    } else {
        Seq::empty()
    }) + " |"@
}

/// The rendered dump from `addr` to `end`, one line per row, joined
/// with newlines.
pub open spec fn spec_dump_text(mem: Seq<u8>, addr: int, end: int) -> Seq<char>
    decreases end + 16 - addr,
    when addr >= 0
{
    if addr > end {
        Seq::empty()
    } else if addr + 16 > end {
        spec_dump_line(mem, addr)
    } else {
        spec_dump_line(mem, addr) + seq!['\n'] + spec_dump_text(mem, addr + 16, end)
    }
}

fn printable(b: u8) -> (r: char)
    ensures
        r == spec_printable(b),
{
    if b < 0x20 || b == 0x7f {
        '.'
    } else {
        b as char
    }
}

/// The raw rows of memory between `start` and `end`.
pub fn memory_hexdump(memory: &Memory, start: u16, end: u16) -> (r: MemoryDumpResult)
    ensures
        spec_dump_view(r@) == spec_dump_rows(memory@, start as int, end as int),
{
    let mut rows: MemoryDumpResult = Vec::new();
    let mut addr: u32 = start as u32;
    proof {
        assert(spec_dump_view(rows@) =~= Seq::<(u16, Seq<u8>, Seq<char>)>::empty());
    }
    while addr <= end as u32
        invariant
            spec_dump_rows(memory@, start as int, end as int) =~= spec_dump_view(rows@)
                + spec_dump_rows(memory@, addr as int, end as int),
        decreases end as int + 16 - addr,
    {
        let limit: u32 = if 0xffff - addr < 16 {
            0xffff - addr
        } else {
            16
        };
        let mut cells: Vec<u8> = Vec::new();
        let mut chars: Vec<char> = Vec::new();
        let mut i: u32 = 0;
        while i < limit
            invariant
                limit == spec_row_limit(addr as int),
                addr as int + limit <= MEMORY_SIZE,
                i <= limit,
                cells@ =~= spec_row_bytes(memory@, addr as int).subrange(0, i as int),
                chars@ =~= spec_row_chars(memory@, addr as int).subrange(0, i as int),
            decreases limit - i,
        {
            let b = memory.read((addr + i) as u16);
            cells.push(b);
            chars.push(printable(b));
            i = i + 1;
        }
        proof {
            assert(cells@ =~= spec_row_bytes(memory@, addr as int));
            assert(chars@ =~= spec_row_chars(memory@, addr as int));
        }
        let ghost pre = rows@;
        rows.push((addr as u16, cells, chars));
        proof {
            assert(spec_dump_view(rows@) =~= spec_dump_view(pre) + seq![
                (
                    (addr as int) as u16,
                    spec_row_bytes(memory@, addr as int),
                    spec_row_chars(memory@, addr as int),
                ),
            ]);
            assert(spec_dump_view(pre) + (seq![
                (
                    (addr as int) as u16,
                    spec_row_bytes(memory@, addr as int),
                    spec_row_chars(memory@, addr as int),
                ),
            ] + spec_dump_rows(memory@, addr as int + 16, end as int)) =~= spec_dump_view(rows@)
                + spec_dump_rows(memory@, addr as int + 16, end as int));
        }
        addr = addr + 16;
    }
    proof {
        assert(spec_dump_view(rows@) + Seq::<(u16, Seq<u8>, Seq<char>)>::empty() =~= spec_dump_view(
            rows@,
        ));
    }
    rows
}

/// Render one dump line.
fn dump_line(memory: &Memory, addr: u32) -> (r: String)
    requires
        addr <= 0xffff,
    ensures
        r@ == spec_dump_line(memory@, addr as int),
{
    let limit: u32 = if 0xffff - addr < 16 {
        0xffff - addr
    } else {
        16
    };
    let mut out = String::new();
    push_str_chars(&mut out, "[0x");
    push_hex16(&mut out, addr as u16);
    push_str_chars(&mut out, "] ");
    proof {
        assert(out@ =~= "[0x"@ + spec_hex16(addr as u16) + "] "@);
    }
    let ghost head = out@;
    let mut i: u32 = 0;
    while i < limit
        invariant
            limit == spec_row_limit(addr as int),
            addr as int + limit <= MEMORY_SIZE,
            i <= limit,
            head + spec_hex_cells(memory@, addr as int, 0) =~= out@ + spec_hex_cells(
                memory@,
                addr as int,
                i as int,
            ),
        decreases limit - i,
    {
        let b = memory.read((addr + i) as u16);
        push_hex8(&mut out, b);
        push_char(&mut out, ' ');
        i = i + 1;
    }
    proof {
        assert(out@ =~= head + spec_hex_cells(memory@, addr as int, 0));
    }
    let ghost pad1: Seq<char> = if limit < 16 {
        "   "@
    } else {
        Seq::<char>::empty()
    };
    if limit < 16 {
        push_str_chars(&mut out, "   ");
    }
    push_str_chars(&mut out, "| ");
    proof {
        assert(out@ =~= head + spec_hex_cells(memory@, addr as int, 0) + pad1 + "| "@);
    }
    let ghost head2 = out@;
    let mut j: u32 = 0;
    while j < limit
        invariant
            limit == spec_row_limit(addr as int),
            addr as int + limit <= MEMORY_SIZE,
            j <= limit,
            out@ =~= head2 + spec_row_chars(memory@, addr as int).subrange(0, j as int),
        decreases limit - j,
    {
        let b = memory.read((addr + j) as u16);
        push_char(&mut out, printable(b));
        j = j + 1;
    }
    proof {
        assert(out@ =~= head2 + spec_row_chars(memory@, addr as int));
    }
    let ghost pad2: Seq<char> = if limit < 16 {
        " "@
    } else {
        Seq::<char>::empty()
    };
    if limit < 16 {
        push_str_chars(&mut out, " ");
    }
    push_str_chars(&mut out, " |");
    proof {
        assert(out@ =~= head2 + spec_row_chars(memory@, addr as int) + pad2 + " |"@);
        assert(out@ =~= spec_dump_line(memory@, addr as int));
    }
    out
}

/// The rendered dump between `start` and `end` as one text block, one
/// line per row.
pub fn memory_hexdump_string(memory: &Memory, start: u16, end: u16) -> (r: String)
    ensures
        r@ == spec_dump_text(memory@, start as int, end as int),
{
    let mut out = String::new();
    let mut addr: u32 = start as u32;
    let mut first = true;
    while addr <= end as u32
        invariant
            first ==> addr == start as u32 && out@ =~= Seq::<char>::empty(),
            if addr as int <= end as int {
                spec_dump_text(memory@, start as int, end as int) =~= out@ + (if first {
                    Seq::<char>::empty()
                } else {
                    seq!['\n']
                }) + spec_dump_text(memory@, addr as int, end as int)
            } else {
                spec_dump_text(memory@, start as int, end as int) =~= out@
            },
        decreases end as int + 16 - addr,
    {
        if !first {
            push_char(&mut out, '\n');
        }
        let line = dump_line(memory, addr);
        push_str_chars(&mut out, line.as_str());
        first = false;
        addr = addr + 16;
    }
    out
}

} // verus!
