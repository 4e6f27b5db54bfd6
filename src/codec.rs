use vstd::prelude::*;

verus! {

/// The 64-character alphabet of URL-safe base64: `A-Z a-z 0-9 - _`.
pub open spec fn is_url_safe_char(c: char) -> bool {
    ('A' <= c && c <= 'Z') || ('a' <= c && c <= 'z') || ('0' <= c && c <= '9') || c == '-'
        || c == '_'
}

/// The URL-safe base64 digit for a six-bit value.
pub open spec fn url_safe_digit(v: int) -> char {
    if v < 26 {
        ((v + 65) as u8) as char
    } else if v < 52 {
        ((v - 26 + 97) as u8) as char
    } else if v < 62 {
        ((v - 52 + 48) as u8) as char
    } else if v == 62 {
        '-'
    } else {
        '_'
    }
}

/// URL-safe base64 without padding: each group of three bytes becomes four
/// digits, a final group of one or two bytes becomes two or three.
pub open spec fn url_safe_no_pad(b: Seq<u8>) -> Seq<char>
    decreases b.len(),
{
    if b.len() == 0 {
        seq![]
    } else if b.len() == 1 {
        seq![url_safe_digit(b[0] as int / 4), url_safe_digit((b[0] as int % 4) * 16)]
    } else if b.len() == 2 {
        seq![
            url_safe_digit(b[0] as int / 4),
            url_safe_digit((b[0] as int % 4) * 16 + b[1] as int / 16),
            url_safe_digit((b[1] as int % 16) * 4),
        ]
    } else {
        seq![
            url_safe_digit(b[0] as int / 4),
            url_safe_digit((b[0] as int % 4) * 16 + b[1] as int / 16),
            url_safe_digit((b[1] as int % 16) * 4 + b[2] as int / 64),
            url_safe_digit(b[2] as int % 64),
        ] + url_safe_no_pad(b.subrange(3, b.len() as int))
    }
}

/// Number of digits in the unpadded base64 encoding of `n` bytes.
pub open spec fn url_safe_len(n: nat) -> nat {
    4 * (n / 3) + if n % 3 == 0 {
        0
    } else {
        n % 3 + 1
    }
}

/// The lowercase hexadecimal digit for a four-bit value.
pub open spec fn hex_digit(v: int) -> char {
    if v < 10 {
        ((v + 48) as u8) as char
    } else {
        ((v - 10 + 97) as u8) as char
    }
}

/// Lowercase hexadecimal: two digits per byte, high nibble first.
pub open spec fn hex_lower(b: Seq<u8>) -> Seq<char>
    decreases b.len(),
{
    if b.len() == 0 {
        seq![]
    } else {
        seq![hex_digit(b[0] as int / 16), hex_digit(b[0] as int % 16)] + hex_lower(b.drop_first())
    }
}

/// A lowercase hexadecimal digit: `0-9 a-f`.
pub open spec fn is_hex_lower_char(c: char) -> bool {
    ('0' <= c && c <= '9') || ('a' <= c && c <= 'f')
}

pub proof fn lemma_hex_lower(b: Seq<u8>)
    ensures
        hex_lower(b).len() == 2 * b.len(),
        forall|i: int| 0 <= i < hex_lower(b).len() ==> is_hex_lower_char(#[trigger] hex_lower(b)[i]),
    decreases b.len(),
{
    if b.len() > 0 {
        let rest = b.drop_first();
        lemma_hex_lower(rest);
        let head = seq![hex_digit(b[0] as int / 16), hex_digit(b[0] as int % 16)];
        assert(is_hex_lower_char(head[0]) && is_hex_lower_char(head[1]));
        assert(hex_lower(b) == head + hex_lower(rest));
        assert forall|i: int| 0 <= i < hex_lower(b).len() implies is_hex_lower_char(
            #[trigger] hex_lower(b)[i],
        ) by {
            if i >= 2 {
                assert(hex_lower(b)[i] == hex_lower(rest)[i - 2]);
            }
        }
    }
}

pub proof fn lemma_url_safe_digit(v: int)
    requires
        0 <= v < 64,
    ensures
        is_url_safe_char(url_safe_digit(v)),
{
}

pub proof fn lemma_url_safe_no_pad(b: Seq<u8>)
    ensures
        url_safe_no_pad(b).len() == url_safe_len(b.len()),
        forall|i: int|
            0 <= i < url_safe_no_pad(b).len() ==> is_url_safe_char(#[trigger] url_safe_no_pad(b)[i]),
    decreases b.len(),
{
    if b.len() == 0 {
    } else if b.len() == 1 {
        lemma_url_safe_digit(b[0] as int / 4);
        lemma_url_safe_digit((b[0] as int % 4) * 16);
    } else if b.len() == 2 {
        lemma_url_safe_digit(b[0] as int / 4);
        lemma_url_safe_digit((b[0] as int % 4) * 16 + b[1] as int / 16);
        lemma_url_safe_digit((b[1] as int % 16) * 4);
    } else {
        let rest = b.subrange(3, b.len() as int);
        lemma_url_safe_no_pad(rest);
        lemma_url_safe_digit(b[0] as int / 4);
        lemma_url_safe_digit((b[0] as int % 4) * 16 + b[1] as int / 16);
        lemma_url_safe_digit((b[1] as int % 16) * 4 + b[2] as int / 64);
        lemma_url_safe_digit(b[2] as int % 64);
        let head = seq![
            url_safe_digit(b[0] as int / 4),
            url_safe_digit((b[0] as int % 4) * 16 + b[1] as int / 16),
            url_safe_digit((b[1] as int % 16) * 4 + b[2] as int / 64),
            url_safe_digit(b[2] as int % 64),
        ];
        assert(url_safe_no_pad(b) == head + url_safe_no_pad(rest));
        assert(rest.len() == b.len() - 3);
        assert forall|i: int| 0 <= i < url_safe_no_pad(b).len() implies is_url_safe_char(
            #[trigger] url_safe_no_pad(b)[i],
        ) by {
            if i >= 4 {
                assert(url_safe_no_pad(b)[i] == url_safe_no_pad(rest)[i - 4]);
            }
        }
    }
}

} // verus!
