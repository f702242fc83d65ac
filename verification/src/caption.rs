//! The caption of the status display: the line of text that names the
//! active layer and the typing rate.

use crate::event::Status;
use vstd::prelude::*;

verus! {

/// The code of the character `0`.
pub const ZERO: u8 = 48;

/// The decimal digits of `n`, most significant first, as character codes;
/// no leading zero but for zero itself.
pub open spec fn digits(n: nat) -> Seq<u8>
    decreases n,
{
    if n < 10 {
        seq![(ZERO + n) as u8]
    } else {
        digits(n / 10).push((ZERO + n % 10) as u8)
    }
}

/// The number that a run of digits stands for.
pub open spec fn value(text: Seq<u8>) -> nat
    decreases text.len(),
{
    if text.len() == 0 {
        0
    } else {
        (value(text.drop_last()) * 10 + (text.last() - ZERO)) as nat
    }
}

/// The digits of a number stand for that number, and each is a digit.
pub proof fn digits_read_back(n: nat)
    ensures
        value(digits(n)) == n,
        digits(n).len() >= 1,
        forall|i: int| 0 <= i < digits(n).len() ==> ZERO <= #[trigger] digits(n)[i] <= ZERO + 9,
    decreases n,
{
    if n < 10 {
        assert(digits(n).drop_last() =~= Seq::<u8>::empty());
        assert(value(Seq::<u8>::empty()) == 0);
    } else {
        digits_read_back(n / 10);
        assert(digits(n).drop_last() =~= digits(n / 10));
    }
}

/// The characters `Layer ` that open the caption.
pub open spec fn layer_label() -> Seq<u8> {
    seq![76u8, 97u8, 121u8, 101u8, 114u8, 32u8]
}

/// The characters ` wpm` that close the caption.
pub open spec fn rate_unit() -> Seq<u8> {
    seq![32u8, 119u8, 112u8, 109u8]
}

/// The caption for a status: `Layer `, the layer's index, two spaces, the
/// typing rate and ` wpm`.
pub open spec fn caption_of(status: Status) -> Seq<u8> {
    layer_label() + digits(status.layer as nat) + seq![32u8, 32u8] + digits(
        status.typing_rate as nat,
    ) + rate_unit()
}

fn push_digits(out: &mut Vec<u8>, n: u16)
    ensures
        final(out)@ == old(out)@ + digits(n as nat),
    decreases n,
{
    if n >= 10 {
        push_digits(out, n / 10);
    }
    let digit: u16 = n % 10;
    out.push(ZERO + digit as u8);
    assert(out@ =~= old(out)@ + digits(n as nat));
}

/// The decimal digits of `n`, most significant first, as character codes.
pub fn decimal(n: u16) -> (text: Vec<u8>)
    ensures
        text@ == digits(n as nat),
{
    let mut text: Vec<u8> = Vec::new();
    push_digits(&mut text, n);
    assert(text@ =~= digits(n as nat));
    text
}

/// The caption for a status, as character codes.
pub fn caption(status: Status) -> (text: Vec<u8>)
    ensures
        text@ == caption_of(status),
{
    let mut text: Vec<u8> = Vec::new();
    text.push(76);
    text.push(97);
    text.push(121);
    text.push(101);
    text.push(114);
    text.push(32);
    assert(text@ =~= layer_label());
    push_digits(&mut text, status.layer as u16);
    text.push(32);
    text.push(32);
    push_digits(&mut text, status.typing_rate);
    text.push(32);
    text.push(119);
    text.push(112);
    text.push(109);
    assert(text@ =~= caption_of(status));
    text
}

/// Every character of the caption is a plain ASCII character.
pub proof fn caption_is_ascii(status: Status)
    ensures
        forall|i: int| 0 <= i < caption_of(status).len() ==> #[trigger] caption_of(status)[i] < 128,
{
    digits_read_back(status.layer as nat);
    digits_read_back(status.typing_rate as nat);
    let a = digits(status.layer as nat);
    let b = digits(status.typing_rate as nat);
    assert forall|i: int| 0 <= i < caption_of(status).len() implies #[trigger] caption_of(
        status,
    )[i] < 128 by {
        if i < 6 {
        } else if i < 6 + a.len() {
            assert(caption_of(status)[i] == a[i - 6]);
        } else if i < 8 + a.len() {
        } else if i < 8 + a.len() + b.len() {
            assert(caption_of(status)[i] == b[i - 8 - a.len()]);
        } else {
        }
    }
}

/// The caption shows the layer: right after `Layer ` come the digits of the
/// layer's index, and nothing but the status decides the caption.
pub proof fn caption_shows_the_layer(status: Status)
    ensures
        caption_of(status).subrange(0, 6) == layer_label(),
        caption_of(status).subrange(6, 6 + digits(status.layer as nat).len() as int) == digits(
            status.layer as nat,
        ),
        value(digits(status.layer as nat)) == status.layer,
{
    digits_read_back(status.layer as nat);
    assert(caption_of(status).subrange(0, 6) =~= layer_label());
    assert(caption_of(status).subrange(6, 6 + digits(status.layer as nat).len() as int) =~= digits(
        status.layer as nat,
    ));
}

} // verus!
