use vstd::prelude::*;

verus! {

/// The tag byte that opens every new-message notification (`'N'`).
pub const NEW_MESSAGE_TAG: u8 = 78;

/// Decimal digits of `n`, most significant first, as ASCII bytes.
pub open spec fn decimal(n: nat) -> Seq<u8>
    decreases n,
{
    if n < 10 {
        seq![(48 + n) as u8]
    } else {
        decimal(n / 10).push((48 + n % 10) as u8)
    }
}

/// The bytes sent to subscribers when the message at `index` was appended:
/// the tag, then the index in decimal.
pub open spec fn notification_of(index: nat) -> Seq<u8> {
    seq![NEW_MESSAGE_TAG] + decimal(index)
}

/// Appends the decimal digits of `n` to `out`.
fn push_decimal(n: u64, out: &mut Vec<u8>)
    ensures
        final(out)@ == old(out)@ + decimal(n as nat),
    decreases n,
{
    if n < 10 {
        out.push((48 + n) as u8);
    } else {
        let ghost before = out@;
        push_decimal(n / 10, out);
        out.push((48 + n % 10) as u8);
        assert(out@ =~= before + decimal(n as nat));
    }
}

/// Builds the notification frame for the message at `index`.
pub fn notification_frame(index: u64) -> (r: Vec<u8>)
    ensures
        r@ == notification_of(index as nat),
{
    let mut out: Vec<u8> = Vec::new();
    out.push(NEW_MESSAGE_TAG);
    push_decimal(index, &mut out);
    out
}

} // verus!
