//! Parsing of the tracee's live memory-mapping table.
//!
//! The table is a text file of rows shaped like
//! `400000-401000 r-xp 00000000 fd:01 123 /bin/foo`: an address range, a
//! permission column, and a file offset, all further columns ignored.  A
//! file-relative address is translated by finding the first row whose
//! offset range contains it; rows that do not parse are skipped.

use vstd::prelude::*;

use crate::text::{all_hex_digits, hex_value, parse_hex};

verus! {

/// One parsed row of the mapping table: the runtime address range
/// `start..stop` and the file offset it is mapped from.
#[derive(Clone, Copy, Debug, PartialEq, Eq, Structural)]
pub struct MapsRow {
    pub start: usize,
    pub stop: usize,
    pub offset: usize,
}

/// Is `b` a blank byte separating the columns of a row?
pub open spec fn is_ws(b: u8) -> bool {
    b == 32 || b == 9
}

/// First index at or after `i` holding a non-blank byte, or the position
/// where the scan stopped.
pub open spec fn skip_ws(s: Seq<u8>, i: nat) -> nat
    decreases s.len() - i,
{
    if i < s.len() && is_ws(s[i as int]) {
        skip_ws(s, (i + 1) as nat)
    } else {
        i
    }
}

/// First index at or after `i` holding a blank byte, or the position where
/// the scan stopped.
pub open spec fn scan_token(s: Seq<u8>, i: nat) -> nat
    decreases s.len() - i,
{
    if i < s.len() && !is_ws(s[i as int]) {
        scan_token(s, (i + 1) as nat)
    } else {
        i
    }
}

/// First index at or after `i` holding the byte `b`.
pub open spec fn find_from(s: Seq<u8>, i: nat, b: u8) -> Option<nat>
    decreases s.len() - i,
{
    if i < s.len() {
        if s[i as int] == b {
            Some(i)
        } else {
            find_from(s, (i + 1) as nat, b)
        }
    } else {
        None
    }
}

/// A non-empty string of hexadecimal digits whose value fits in `usize`.
pub open spec fn valid_hex_usize(s: Seq<u8>) -> bool {
    s.len() > 0 && all_hex_digits(s) && hex_value(s) <= usize::MAX
}

/// The row spelled by one line of the table, if it is well-formed: first
/// column `start-stop`, second column skipped, third column the offset.
pub open spec fn row_of_line(line: Seq<u8>) -> Option<MapsRow> {
    let a = skip_ws(line, 0);
    let b = scan_token(line, a);
    let c = skip_ws(line, b);
    let d = scan_token(line, c);
    let e = skip_ws(line, d);
    let f = scan_token(line, e);
    if a >= b || c >= d || e >= f {
        None
    } else {
        let range = line.subrange(a as int, b as int);
        match find_from(range, 0, 45) {
            Option::None => None,
            Option::Some(dash) => {
                let start_hex = range.subrange(0, dash as int);
                let stop_hex = range.subrange(dash as int + 1, range.len() as int);
                let offset_hex = line.subrange(e as int, f as int);
                if valid_hex_usize(start_hex) && valid_hex_usize(stop_hex) && valid_hex_usize(
                    offset_hex,
                ) {
                    Some(
                        MapsRow {
                            start: hex_value(start_hex) as usize,
                            stop: hex_value(stop_hex) as usize,
                            offset: hex_value(offset_hex) as usize,
                        },
                    )
                } else {
                    None
                }
            },
        }
    }
}

/// Does the row's file-offset range contain the requested address?
pub open spec fn row_matches(row: MapsRow, addr: nat) -> bool {
    row.offset <= addr && addr <= row.offset + row.stop - row.start
}

/// The runtime address the row maps the requested file offset to.
pub open spec fn row_target(row: MapsRow, addr: nat) -> int {
    row.start + addr - row.offset
}

/// Translation over the whole table text: the first row, in file order,
/// whose offset range contains `addr` decides the result.
pub open spec fn translate_lines(s: Seq<u8>, addr: nat) -> Option<int>
    decreases s.len(),
{
    if s.len() == 0 {
        None
    } else {
        proof {
            lemma_find_from_bounds(s, 0, 10);
        }
        let line = match find_from(s, 0, 10) {
            Option::Some(j) => s.subrange(0, j as int),
            Option::None => s,
        };
        let rest = match find_from(s, 0, 10) {
            Option::Some(j) => s.subrange(j as int + 1, s.len() as int),
            Option::None => Seq::<u8>::empty(),
        };
        match row_of_line(line) {
            Option::Some(row) => if row_matches(row, addr) {
                Some(row_target(row, addr))
            } else {
                translate_lines(rest, addr)
            },
            Option::None => translate_lines(rest, addr),
        }
    }
}

pub proof fn lemma_find_from_bounds(s: Seq<u8>, i: nat, b: u8)
    ensures
        find_from(s, i, b) matches Some(j) ==> i <= j < s.len() && s[j as int] == b && (forall|
            k: int,
        |
            i <= k < j ==> s[k] != b),
        find_from(s, i, b) is None ==> forall|k: int| i <= k < s.len() ==> s[k] != b,
    decreases s.len() - i,
{
    if i < s.len() && s[i as int] != b {
        lemma_find_from_bounds(s, (i + 1) as nat, b);
    }
}

fn skip_ws_exec(s: &[u8], from: usize) -> (r: usize)
    requires
        from <= s@.len(),
    ensures
        r as nat == skip_ws(s@, from as nat),
        from <= r <= s@.len(),
{
    let mut i: usize = from;
    loop
        invariant
            from <= i <= s@.len(),
            skip_ws(s@, from as nat) == skip_ws(s@, i as nat),
        ensures
            from <= i <= s@.len(),
            skip_ws(s@, from as nat) == i,
        decreases s@.len() - i,
    {
        if i >= s.len() {
            break ;
        }
        let b = s[i];
        if b != 32 && b != 9 {
            break ;
        }
        i = i + 1;
    }
    i
}

fn scan_token_exec(s: &[u8], from: usize) -> (r: usize)
    requires
        from <= s@.len(),
    ensures
        r as nat == scan_token(s@, from as nat),
        from <= r <= s@.len(),
{
    let mut i: usize = from;
    loop
        invariant
            from <= i <= s@.len(),
            scan_token(s@, from as nat) == scan_token(s@, i as nat),
        ensures
            from <= i <= s@.len(),
            scan_token(s@, from as nat) == i,
        decreases s@.len() - i,
    {
        if i >= s.len() {
            break ;
        }
        let b = s[i];
        if b == 32 || b == 9 {
            break ;
        }
        i = i + 1;
    }
    i
}

pub(crate) fn find_byte_exec(s: &[u8], from: usize, b: u8) -> (r: Option<usize>)
    requires
        from <= s@.len(),
    ensures
        r matches Some(j) ==> find_from(s@, from as nat, b) == Some(j as nat) && from <= j
            < s@.len(),
        r is None ==> find_from(s@, from as nat, b) is None,
{
    let mut i: usize = from;
    while i < s.len()
        invariant
            from <= i <= s@.len(),
            find_from(s@, from as nat, b) == find_from(s@, i as nat, b),
        decreases s@.len() - i,
    {
        if s[i] == b {
            return Some(i);
        }
        i = i + 1;
    }
    None
}

/// Parse one line of the table.
pub fn parse_row(line: &[u8]) -> (r: Option<MapsRow>)
    ensures
        r == row_of_line(line@),
{
    let a = skip_ws_exec(line, 0);
    let b = scan_token_exec(line, a);
    let c = skip_ws_exec(line, b);
    let d = scan_token_exec(line, c);
    let e = skip_ws_exec(line, d);
    let f = scan_token_exec(line, e);
    if a >= b || c >= d || e >= f {
        return None;
    }
    let range = vstd::slice::slice_subrange(line, a, b);
    let dash = match find_byte_exec(range, 0, 45) {
        Some(j) => j,
        None => {
            return None;
        },
    };
    proof {
        lemma_find_from_bounds(range@, 0, 45);
    }
    let start_hex = vstd::slice::slice_subrange(range, 0, dash);
    let stop_hex = vstd::slice::slice_subrange(range, dash + 1, range.len());
    let offset_hex = vstd::slice::slice_subrange(line, e, f);
    let start = match parse_hex(start_hex) {
        Some(v) => v,
        None => {
            return None;
        },
    };
    let stop = match parse_hex(stop_hex) {
        Some(v) => v,
        None => {
            return None;
        },
    };
    let offset = match parse_hex(offset_hex) {
        Some(v) => v,
        None => {
            return None;
        },
    };
    Some(MapsRow { start, stop, offset })
}

proof fn lemma_find_shift(s: Seq<u8>, p: nat, i: nat, b: u8)
    requires
        p <= i <= s.len(),
    ensures
        find_from(s, i, b) matches Some(j) ==> find_from(
            s.subrange(p as int, s.len() as int),
            (i - p) as nat,
            b,
        ) == Some((j - p) as nat),
        find_from(s, i, b) is None ==> find_from(
            s.subrange(p as int, s.len() as int),
            (i - p) as nat,
            b,
        ) is None,
    decreases s.len() - i,
{
    lemma_find_from_bounds(s, i, b);
    if i < s.len() {
        if s[i as int] == b {
        } else {
            lemma_find_shift(s, p, (i + 1) as nat, b);
        }
    }
}

/// Translate a file-relative address against the whole table text, first
/// matching row in file order winning.
pub fn translate_address_in(data: &[u8], addr: usize) -> (r: Option<usize>)
    ensures
        r matches Some(v) ==> translate_lines(data@, addr as nat) == Some(v as int),
        r is None ==> translate_lines(data@, addr as nat) is None,
{
    let mut pos: usize = 0;
    proof {
        assert(data@.subrange(0, data@.len() as int) =~= data@);
    }
    loop
        invariant
            pos <= data@.len(),
            translate_lines(data@, addr as nat) == translate_lines(
                data@.subrange(pos as int, data@.len() as int),
                addr as nat,
            ),
        decreases data@.len() - pos,
    {
        let ghost suffix = data@.subrange(pos as int, data@.len() as int);
        if pos == data.len() {
            assert(suffix =~= Seq::<u8>::empty());
            return None;
        }
        let line_end: usize;
        let next_pos: usize;
        match find_byte_exec(data, pos, 10) {
            Some(j) => {
                line_end = j;
                next_pos = j + 1;
            },
            None => {
                line_end = data.len();
                next_pos = data.len();
            },
        }
        proof {
            lemma_find_shift(data@, pos as nat, pos as nat, 10);
        }
        let line = vstd::slice::slice_subrange(data, pos, line_end);
        let ghost spec_line = match find_from(suffix, 0, 10) {
            Option::Some(j) => suffix.subrange(0, j as int),
            Option::None => suffix,
        };
        let ghost spec_rest = match find_from(suffix, 0, 10) {
            Option::Some(j) => suffix.subrange(j as int + 1, suffix.len() as int),
            Option::None => Seq::<u8>::empty(),
        };
        assert(line@ =~= spec_line);
        assert(data@.subrange(next_pos as int, data@.len() as int) =~= spec_rest);
        match parse_row(line) {
            Some(row) => {
                if addr >= row.offset {
                    let delta = addr - row.offset;
                    match row.stop.checked_sub(row.start) {
                        Some(diff) => {
                            if delta <= diff {
                                assert(row_matches(row, addr as nat));
                                return Some(row.start + delta);
                            } else {
                                assert(!row_matches(row, addr as nat));
                            }
                        },
                        None => {
                            assert(!row_matches(row, addr as nat));
                        },
                    }
                } else {
                    assert(!row_matches(row, addr as nat));
                }
            },
            None => {},
        }
        pos = next_pos;
    }
}

} // verus!
