//! Mouse reports sent to the program running in the terminal.
use vstd::prelude::*;

verus! {

/// The ASCII bytes of the decimal form of `n`.
pub open spec fn decimal_bytes(n: nat) -> Seq<u8>
    decreases n,
{
    if n < 10 {
        seq![(48 + n) as u8]
    } else {
        decimal_bytes(n / 10).push((48 + n % 10) as u8)
    }
}

/// Appends the decimal form of `n` as ASCII bytes.
pub fn push_decimal_bytes(out: &mut Vec<u8>, n: u64)
    ensures
        final(out)@ == old(out)@ + decimal_bytes(n as nat),
    decreases n,
{
    if n >= 10 {
        push_decimal_bytes(out, n / 10);
    }
    let d = (n % 10) as u8;
    out.push(48 + d);
    proof {
        assert(decimal_bytes(n as nat) == if n < 10 { seq![(48 + n) as u8] } else {
            decimal_bytes((n / 10) as nat).push((48 + n % 10) as u8)
        });
    }
}

/// The SGR report `ESC [ < btn ; col+1 ; row+1 M` (`m` for a release).
pub open spec fn sgr_report(btn: u8, col: nat, row: nat, release: bool) -> Seq<u8> {
    seq![0x1bu8, 0x5bu8, 0x3cu8] + decimal_bytes(btn as nat) + seq![0x3bu8] + decimal_bytes(col + 1)
        + seq![0x3bu8] + decimal_bytes(row + 1) + seq![if release { 0x6du8 } else { 0x4du8 }]
}

/// A coordinate of an X10 report: one-based, offset by 32, clamped to a byte.
pub open spec fn x10_coord(v: nat) -> u8 {
    if v + 33 > 255 { 255 } else { (v + 33) as u8 }
}

/// The X10 report `ESC [ M b c r`: button and coordinates offset into the
/// printable range; press and release look the same.
pub open spec fn x10_report(btn: u8, col: nat, row: nat) -> Seq<u8> {
    seq![0x1bu8, 0x5bu8, 0x4du8, (btn + 32) as u8, x10_coord(col), x10_coord(row)]
}

fn x10_byte(v: usize) -> (b: u8)
    ensures
        b == x10_coord(v as nat),
{
    if v >= 222 { 255 } else { (v + 33) as u8 }
}

/// Encodes a mouse event for the PTY: the SGR extended form when `sgr`,
/// otherwise the X10 form, whose coordinates are clamped to fit in a byte.
pub fn encode_mouse_event(btn: u8, col: usize, row: usize, release: bool, sgr: bool) -> (r: Vec<u8>)
    requires
        sgr ==> col < usize::MAX && row < usize::MAX,
        !sgr ==> btn + 32 <= 255,
    ensures
        r@ == if sgr { sgr_report(btn, col as nat, row as nat, release) } else { x10_report(btn, col as nat, row as nat) },
{
    if sgr {
        let mut out: Vec<u8> = Vec::new();
        out.push(0x1b);
        out.push(0x5b);
        out.push(0x3c);
        push_decimal_bytes(&mut out, btn as u64);
        out.push(0x3b);
        push_decimal_bytes(&mut out, (col + 1) as u64);
        out.push(0x3b);
        push_decimal_bytes(&mut out, (row + 1) as u64);
        out.push(if release { 0x6d } else { 0x4d });
        assert(out@ =~= sgr_report(btn, col as nat, row as nat, release));
        out
    } else {
        let b = btn + 32;
        let c = x10_byte(col);
        let r = x10_byte(row);
        let out = vec![0x1bu8, 0x5bu8, 0x4du8, b, c, r];
        assert(out@ =~= x10_report(btn, col as nat, row as nat));
        out
    }
}

} // verus!
