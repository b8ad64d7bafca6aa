use vstd::prelude::*;
use base64::Engine;

verus! {

/// The character of the standard Base64 alphabet for `v < 64`.
pub open spec fn b64_char(v: int) -> char {
    if v < 26 {
        (('A' as u32) + v) as char
    } else if v < 52 {
        (('a' as u32) + v - 26) as char
    } else if v < 62 {
        (('0' as u32) + v - 52) as char
    } else if v == 62 {
        '+'
    } else {
        '/'
    }
}

/// Standard Base64 with padding (RFC 4648): every three bytes become four
/// characters; a last group of one or two bytes is padded with `=`.
pub open spec fn base64_standard(bs: Seq<u8>) -> Seq<char>
    decreases bs.len(),
{
    let b0 = if bs.len() > 0 { bs[0] as int } else { 0 };
    let b1 = if bs.len() > 1 { bs[1] as int } else { 0 };
    let b2 = if bs.len() > 2 { bs[2] as int } else { 0 };
    if bs.len() == 0 {
        Seq::empty()
    } else if bs.len() == 1 {
        seq![b64_char(b0 / 4), b64_char((b0 % 4) * 16), '=', '=']
    } else if bs.len() == 2 {
        seq![
            b64_char(b0 / 4),
            b64_char((b0 % 4) * 16 + b1 / 16),
            b64_char((b1 % 16) * 4),
            '=',
        ]
    } else {
        seq![
            b64_char(b0 / 4),
            b64_char((b0 % 4) * 16 + b1 / 16),
            b64_char((b1 % 16) * 4 + b2 / 64),
            b64_char(b2 % 64),
        ] + base64_standard(bs.skip(3))
    }
}

/// Calls `base64::Engine::encode` on `base64::engine::general_purpose::STANDARD`:
/// the standard alphabet with padding, as the crate documents it.
#[verifier::external_body]
fn encode_base64(bytes: &[u8]) -> (res: String)
    ensures
        res@ == base64_standard(bytes@),
{
    base64::engine::general_purpose::STANDARD.encode(bytes)
}

/// The voice event for sentence `index`: its audio in Base64 where the
/// synthesis succeeded, nothing where it failed.
pub fn voice_payload(index: usize, wav: Result<Vec<u8>, String>) -> (res: Option<(usize, String)>)
    ensures
        match wav {
            Ok(w) => (res matches Some(p) && p.0 == index && p.1@ == base64_standard(w@)),
            Err(_) => res is None,
        },
{
    match wav {
        Ok(w) => Some((index, encode_base64(w.as_slice()))),
        Err(_) => None,
    }
}

} // verus!
