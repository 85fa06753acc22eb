//! How deep bencoded data is nested. A reader of bencode that descends once
//! for every list or dictionary inside another needs stack in proportion to
//! that depth, so data from the network is measured before it is read.
//!
//! The measure walks over the data token by token, as a reader does: `l` and
//! `d` open a list or a dictionary, `e` closes one, `i` starts an integer
//! that runs to the next `e`, and anything else starts a byte string, whose
//! length stands in decimal before a `:`. It stops at the first token that
//! no reader can get past, and it never counts less than a reader descends:
//! where the data is malformed in a way that lets the walk go on, it goes on.
use crate::scan::{find, find_byte};
use vstd::prelude::*;

verus! {

/// The deepest nesting that is read.
pub const MAX_NESTING: usize = 64;

/// Whether `byte` is a decimal digit.
pub open spec fn is_digit(byte: u8) -> bool {
    0x30 <= byte <= 0x39
}

/// The number that the digits `bytes[pos..to]` add to `so_far`, cut off at
/// `cap`; `None` where one of them is no digit.
pub open spec fn digits(bytes: Seq<u8>, pos: int, to: int, so_far: nat, cap: nat) -> Option<nat>
    decreases to - pos,
{
    if pos >= to {
        Some(so_far)
    } else if !is_digit(bytes[pos]) {
        None
    } else {
        let next = so_far * 10 + (bytes[pos] - 0x30);
        digits(
            bytes,
            pos + 1,
            to,
            if next < cap {
                next as nat
            } else {
                cap
            },
            cap,
        )
    }
}

/// The length that `bytes[from..to]` spells for a byte string, cut off at
/// `cap`: decimal digits, at least one, after an optional `+`. `None` where
/// it spells none.
pub open spec fn string_length(bytes: Seq<u8>, from: int, to: int, cap: nat) -> Option<nat> {
    let start = if from < to && bytes[from] == 0x2b {
        from + 1
    } else {
        from
    };
    if start >= to {
        None
    } else {
        digits(bytes, start, to, 0, cap)
    }
}

/// The deepest nesting from `pos` on, where the nesting at `pos` is `depth`
/// and the deepest before it `peak`.
pub open spec fn deepest(bytes: Seq<u8>, pos: int, depth: nat, peak: nat) -> nat
    decreases bytes.len() - pos,
{
    if pos < 0 || pos >= bytes.len() {
        peak
    } else if bytes[pos] == 0x6c || bytes[pos] == 0x64 {
        deepest(
            bytes,
            pos + 1,
            depth + 1,
            if peak > depth {
                peak
            } else {
                depth + 1
            },
        )
    } else if bytes[pos] == 0x65 {
        deepest(
            bytes,
            pos + 1,
            if depth > 0 {
                (depth - 1) as nat
            } else {
                0
            },
            peak,
        )
    } else if bytes[pos] == 0x69 {
        let end = find(bytes, pos + 1, 0x65);
        if pos < end < bytes.len() {
            deepest(bytes, end + 1, depth, peak)
        } else {
            peak
        }
    } else {
        let colon = find(bytes, pos, 0x3a);
        if pos < colon < bytes.len() {
            match string_length(bytes, pos, colon, bytes.len()) {
                Some(length) => if colon + 1 + length < bytes.len() {
                    deepest(bytes, colon + 1 + length, depth, peak)
                } else {
                    peak
                },
                None => peak,
            }
        } else {
            peak
        }
    }
}

/// How deep the lists and dictionaries in `bytes` are nested, as far as a
/// reader of bencode gets: 0 where there is none, 1 where none stands inside
/// another.
pub open spec fn nesting(bytes: Seq<u8>) -> nat {
    deepest(bytes, 0, 0, 0)
}

fn read_digits(bytes: &[u8], from: usize, to: usize) -> (value: Option<usize>)
    requires
        from <= to <= bytes@.len(),
    ensures
        match value {
            Some(n) => digits(bytes@, from as int, to as int, 0, bytes@.len()) == Some(n as nat),
            None => digits(bytes@, from as int, to as int, 0, bytes@.len()) is None,
        },
{
    let cap: usize = bytes.len();
    let mut value: usize = 0;
    let mut pos: usize = from;
    while pos < to
        invariant
            from <= pos <= to <= bytes@.len(),
            cap == bytes@.len(),
            value <= cap,
            digits(bytes@, from as int, to as int, 0, cap as nat) == digits(
                bytes@,
                pos as int,
                to as int,
                value as nat,
                cap as nat,
            ),
        decreases to - pos,
    {
        let byte = bytes[pos];
        if byte < 0x30 || byte > 0x39 {
            return None;
        }
        let next: u128 = value as u128 * 10 + (byte - 0x30) as u128;
        value = if next < cap as u128 {
            next as usize
        } else {
            cap
        };
        pos = pos + 1;
    }
    Some(value)
}

fn read_length(bytes: &[u8], from: usize, to: usize) -> (value: Option<usize>)
    requires
        from <= to <= bytes@.len(),
    ensures
        match value {
            Some(n) => string_length(bytes@, from as int, to as int, bytes@.len()) == Some(
                n as nat,
            ),
            None => string_length(bytes@, from as int, to as int, bytes@.len()) is None,
        },
{
    let start = if from < to && bytes[from] == 0x2b {
        from + 1
    } else {
        from
    };
    if start >= to {
        None
    } else {
        read_digits(bytes, start, to)
    }
}

/// How deep the lists and dictionaries in `bytes` are nested.
pub fn nesting_of(bytes: &[u8]) -> (deepest: usize)
    ensures
        deepest == nesting(bytes@),
{
    let n = bytes.len();
    let mut pos: usize = 0;
    let mut depth: usize = 0;
    let mut peak: usize = 0;
    while pos < n
        invariant
            n == bytes@.len(),
            pos <= n,
            depth <= pos,
            peak <= pos,
            nesting(bytes@) == deepest(bytes@, pos as int, depth as nat, peak as nat),
        decreases n - pos,
    {
        let byte = bytes[pos];
        if byte == 0x6c || byte == 0x64 {
            depth = depth + 1;
            if peak < depth {
                peak = depth;
            }
            pos = pos + 1;
        } else if byte == 0x65 {
            if depth > 0 {
                depth = depth - 1;
            }
            pos = pos + 1;
        } else if byte == 0x69 {
            let end = find_byte(bytes, pos + 1, 0x65);
            if end >= n {
                return peak;
            }
            pos = end + 1;
        } else {
            let colon = find_byte(bytes, pos, 0x3a);
            if colon >= n {
                return peak;
            }
            match read_length(bytes, pos, colon) {
                None => {
                    return peak;
                },
                Some(length) => {
                    if length >= n - colon - 1 {
                        return peak;
                    }
                    pos = colon + 1 + length;
                },
            }
        }
    }
    peak
}

} // verus!
