//! Rendering of genesis artifacts as raw bytes or as `0x`-prefixed hex text.

use vstd::prelude::*;

verus! {

/// ASCII code of the lowercase hex digit for `n` (`0`..`9`, `a`..`f`).
pub open spec fn hex_digit(n: int) -> u8 {
    if n < 10 {
        (48 + n) as u8
    } else {
        (87 + n) as u8
    }
}

/// Two lowercase hex digits per byte, high nibble first, as ASCII codes.
pub open spec fn hex_ascii(b: Seq<u8>) -> Seq<u8> {
    Seq::new(
        2 * b.len(),
        |i: int|
            if i % 2 == 0 {
                hex_digit(b[i / 2] as int / 16)
            } else {
                hex_digit(b[i / 2] as int % 16)
            },
    )
}

/// The ASCII prefix `0x`.
pub open spec fn hex_prefix() -> Seq<u8> {
    seq![48u8, 120u8]
}

/// The hex rendering of an artifact: `0x` followed by its digits.
pub open spec fn hex_text(b: Seq<u8>) -> Seq<u8> {
    hex_prefix() + hex_ascii(b)
}

/// What an export writes: the bytes themselves, or their hex rendering.
pub open spec fn artifact_text(b: Seq<u8>, raw: bool) -> Seq<u8> {
    if raw {
        b
    } else {
        hex_text(b)
    }
}

/// Value of one ASCII hex digit (lowercase); 0 for any other byte.
pub open spec fn hex_value(c: u8) -> int {
    if 48 <= c && c <= 57 {
        c - 48
    } else if 97 <= c && c <= 102 {
        c - 87
    } else {
        0
    }
}

/// Reads `0x`-prefixed hex text back into bytes, two digits per byte;
/// `None` when the prefix is missing or the digits are odd in number.
pub open spec fn decode_hex_text(t: Seq<u8>) -> Option<Seq<u8>> {
    if t.len() >= 2 && t.subrange(0, 2) == hex_prefix() && (t.len() - 2) % 2 == 0 {
        Some(
            Seq::new(
                ((t.len() - 2) / 2) as nat,
                |i: int| (hex_value(t[2 + 2 * i]) * 16 + hex_value(t[3 + 2 * i])) as u8,
            ),
        )
    } else {
        None
    }
}

proof fn lemma_digit_value(n: int)
    requires
        0 <= n < 16,
    ensures
        hex_value(hex_digit(n)) == n,
{
}

/// The hex rendering of an artifact starts with `0x` and decodes back to
/// exactly what the raw rendering of the same bytes is.
pub proof fn lemma_hex_round_trip(b: Seq<u8>)
    ensures
        artifact_text(b, false).len() >= 2,
        artifact_text(b, false).subrange(0, 2) == hex_prefix(),
        decode_hex_text(artifact_text(b, false)) == Some(artifact_text(b, true)),
{
    let t = artifact_text(b, false);
    assert(t.subrange(0, 2) =~= hex_prefix());
    assert((t.len() - 2) / 2 == b.len());
    let d = decode_hex_text(t).unwrap();
    assert forall|i: int| 0 <= i < b.len() implies d[i] == b[i] by {
        let x = b[i] as int;
        assert(t[2 + 2 * i] == hex_ascii(b)[2 * i]);
        assert(t[3 + 2 * i] == hex_ascii(b)[2 * i + 1]);
        assert((2 * i) / 2 == i && (2 * i) % 2 == 0);
        assert((2 * i + 1) / 2 == i && (2 * i + 1) % 2 == 1);
        lemma_digit_value(x / 16);
        lemma_digit_value(x % 16);
        assert(x / 16 * 16 + x % 16 == x);
    }
    assert(d =~= b);
}

/// Relies on `sp_core::hexdisplay::HexDisplay`, whose `Debug` form writes
/// each byte as `{:02x}`: two lowercase digits, high nibble first.
#[verifier::external_body]
fn hex_display(b: &Vec<u8>) -> (r: Vec<u8>)
    ensures
        r@ == hex_ascii(b@),
{
    format!("{:?}", sp_core::hexdisplay::HexDisplay::from(b)).into_bytes()
}

/// Renders an artifact for output: the bytes unchanged when `raw`, else `0x`
/// followed by their lowercase hex digits.
pub fn render_artifact(bytes: Vec<u8>, raw: bool) -> (r: Vec<u8>)
    ensures
        r@ == artifact_text(bytes@, raw),
{
    if raw {
        bytes
    } else {
        let mut digits = hex_display(&bytes);
        let mut out: Vec<u8> = Vec::new();
        out.push(48u8);
        out.push(120u8);
        out.append(&mut digits);
        assert(out@ =~= hex_text(bytes@));
        out
    }
}

} // verus!
