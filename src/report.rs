use vstd::prelude::*;

verus! {

/// The ASCII decimal digits of `n`, most significant first, without leading
/// zeros.
pub open spec fn decimal(n: nat) -> Seq<u8>
    decreases n,
{
    if n < 10 {
        seq![(0x30 + n) as u8]
    } else {
        decimal(n / 10).push((0x30 + n % 10) as u8)
    }
}

/// The reply to a device attributes request: `ESC [ ? 6 c` (a VT102).
pub open spec fn attributes_report() -> Seq<u8> {
    seq![0x1b, 0x5b, 0x3f, 0x36, 0x63]
}

/// The reply to a cursor position request for 0-based column `x` and row
/// `y`: `ESC [ row ; column R`, 1-based.
pub open spec fn position_report(x: nat, y: nat) -> Seq<u8> {
    seq![0x1bu8, 0x5bu8] + decimal(y + 1) + seq![0x3bu8] + decimal(x + 1) + seq![0x52u8]
}

/// Appends the decimal digits of `n`.
pub(crate) fn push_decimal(out: &mut Vec<u8>, n: usize)
    ensures
        final(out)@ == old(out)@ + decimal(n as nat),
    decreases n,
{
    if n >= 10 {
        push_decimal(out, n / 10);
    }
    out.push(0x30 + (n % 10) as u8);
    assert(out@ =~= old(out)@ + decimal(n as nat));
}

/// The device attributes reply.
pub(crate) fn attributes_reply() -> (r: Vec<u8>)
    ensures
        r@ == attributes_report(),
{
    let r = vec![0x1bu8, 0x5bu8, 0x3fu8, 0x36u8, 0x63u8];
    assert(r@ =~= attributes_report());
    r
}

/// The cursor position reply for column `x` and row `y`.
pub(crate) fn position_reply(x: usize, y: usize) -> (r: Vec<u8>)
    requires
        x < usize::MAX,
        y < usize::MAX,
    ensures
        r@ == position_report(x as nat, y as nat),
{
    let mut r: Vec<u8> = Vec::new();
    r.push(0x1b);
    r.push(0x5b);
    push_decimal(&mut r, y + 1);
    r.push(0x3b);
    push_decimal(&mut r, x + 1);
    r.push(0x52);
    assert(r@ =~= position_report(x as nat, y as nat));
    r
}

} // verus!
