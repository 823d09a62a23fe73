//! The encodings of the cloud protocol: base64 for the account and percent
//! encoding for names in paths.
use vstd::prelude::*;

verus! {

/// The character base64 writes for six bits.
pub open spec fn base64_char(bits: int) -> char {
    if bits < 26 {
        (65 + bits) as char
    } else if bits < 52 {
        (97 + (bits - 26)) as char
    } else if bits < 62 {
        (48 + (bits - 52)) as char
    } else if bits == 62 {
        '+'
    } else {
        '/'
    }
}

/// RFC 4648 base64 with padding: three bytes become four characters.
pub open spec fn base64_text(bytes: Seq<u8>) -> Seq<char>
    decreases bytes.len(),
{
    if bytes.len() == 0 {
        seq![]
    } else if bytes.len() == 1 {
        seq![
            base64_char(bytes[0] as int / 4),
            base64_char(bytes[0] as int % 4 * 16),
            '=',
            '=',
        ]
    } else if bytes.len() == 2 {
        seq![
            base64_char(bytes[0] as int / 4),
            base64_char(bytes[0] as int % 4 * 16 + bytes[1] as int / 16),
            base64_char(bytes[1] as int % 16 * 4),
            '=',
        ]
    } else {
        seq![
            base64_char(bytes[0] as int / 4),
            base64_char(bytes[0] as int % 4 * 16 + bytes[1] as int / 16),
            base64_char(bytes[1] as int % 16 * 4 + bytes[2] as int / 64),
            base64_char(bytes[2] as int % 64),
        ] + base64_text(bytes.skip(3))
    }
}

fn base64_digit(bits: u8) -> (c: char)
    requires
        bits < 64,
    ensures
        c == base64_char(bits as int),
{
    if bits < 26 {
        (65u8 + bits) as char
    } else if bits < 52 {
        (97u8 + (bits - 26)) as char
    } else if bits < 62 {
        (48u8 + (bits - 52)) as char
    } else if bits == 62 {
        '+'
    } else {
        '/'
    }
}

pub fn base64(bytes: &[u8]) -> (out: String)
    ensures
        out@ == base64_text(bytes@),
{
    let mut out = String::new();
    let mut i: usize = 0;
    assert(bytes@.skip(0) =~= bytes@);
    assert(out@ + base64_text(bytes@) =~= base64_text(bytes@));
    while bytes.len() - i >= 3
        invariant
            i <= bytes@.len(),
            out@ + base64_text(bytes@.skip(i as int)) == base64_text(bytes@),
        decreases bytes@.len() - i,
    {
        let ghost rest = bytes@.skip(i as int);
        let ghost before = out@;
        let (a, b, c) = (bytes[i], bytes[i + 1], bytes[i + 2]);
        out.push(base64_digit(a / 4));
        out.push(base64_digit(a % 4 * 16 + b / 16));
        out.push(base64_digit(b % 16 * 4 + c / 64));
        out.push(base64_digit(c % 64));
        assert(rest.skip(3) =~= bytes@.skip(i + 3));
        assert(out@ + base64_text(rest.skip(3)) =~= before + base64_text(rest));
        i = i + 3;
    }
    let ghost rest = bytes@.skip(i as int);
    let ghost before = out@;
    if bytes.len() - i == 1 {
        let a: u8 = bytes[i];
        out.push(base64_digit(a / 4));
        out.push(base64_digit(a % 4 * 16));
        out.push('=');
        out.push('=');
    } else if bytes.len() - i == 2 {
        let (a, b) = (bytes[i], bytes[i + 1]);
        out.push(base64_digit(a / 4));
        out.push(base64_digit(a % 4 * 16 + b / 16));
        out.push(base64_digit(b % 16 * 4));
        out.push('=');
    }
    assert(out@ =~= before + base64_text(rest));
    out
}

/// The six bits a base64 character stands for.
pub open spec fn base64_bits(c: char) -> int {
    let code = c as int;
    if 65 <= code <= 90 {
        code - 65
    } else if 97 <= code <= 122 {
        code - 97 + 26
    } else if 48 <= code <= 57 {
        code - 48 + 52
    } else if c == '+' {
        62
    } else {
        63
    }
}

/// The bytes that padded base64 stands for.
pub open spec fn base64_bytes(text: Seq<char>) -> Seq<u8>
    decreases text.len(),
{
    if text.len() < 4 {
        seq![]
    } else {
        let a = base64_bits(text[0]);
        let b = base64_bits(text[1]);
        let c = base64_bits(text[2]);
        let d = base64_bits(text[3]);
        let first = (a * 4 + b / 16) as u8;
        let second = (b % 16 * 16 + c / 4) as u8;
        let third = (c % 4 * 64 + d) as u8;
        if text[2] == '=' {
            seq![first]
        } else if text[3] == '=' {
            seq![first, second]
        } else {
            seq![first, second, third] + base64_bytes(text.skip(4))
        }
    }
}

proof fn lemma_base64_char(bits: int)
    requires
        0 <= bits < 64,
    ensures
        base64_bits(base64_char(bits)) == bits,
        base64_char(bits) != '=',
{
}

/// Nothing is lost: the bytes can be read back from their base64 text.
pub proof fn base64_reads_back(bytes: Seq<u8>)
    ensures
        base64_bytes(base64_text(bytes)) == bytes,
    decreases bytes.len(),
{
    let out = base64_text(bytes);
    if bytes.len() > 0 {
        let a = bytes[0] as int;
        lemma_base64_char(a / 4);
        if bytes.len() == 1 {
            lemma_base64_char(a % 4 * 16);
            assert(base64_bytes(out) =~= bytes);
        } else {
            let b = bytes[1] as int;
            lemma_base64_char(a % 4 * 16 + b / 16);
            if bytes.len() == 2 {
                lemma_base64_char(b % 16 * 4);
                assert(base64_bytes(out) =~= bytes);
            } else {
                let c = bytes[2] as int;
                lemma_base64_char(b % 16 * 4 + c / 64);
                lemma_base64_char(c % 64);
                base64_reads_back(bytes.skip(3));
                assert(out.skip(4) =~= base64_text(bytes.skip(3)));
                assert(seq![bytes[0], bytes[1], bytes[2]] + bytes.skip(3) =~= bytes);
                assert(base64_bytes(out) =~= bytes);
            }
        }
    }
}

/// The value of a basic authorization header.
pub open spec fn basic_auth_text(user: Seq<char>, password: Seq<char>) -> Seq<char> {
    "Basic "@ + base64_text(vstd::utf8::encode_utf8(user + ":"@ + password))
}

pub fn basic_auth(user: &str, password: &str) -> (out: String)
    ensures
        out@ == basic_auth_text(user@, password@),
{
    let mut account = user.to_owned();
    account.append(":");
    account.append(password);
    let mut out = "Basic ".to_owned();
    out.append(&base64(account.as_str().as_bytes()));
    out
}

/// The bytes that percent encoding leaves as they are.
pub open spec fn is_unreserved(byte: u8) -> bool {
    ||| 65 <= byte <= 90
    ||| 97 <= byte <= 122
    ||| 48 <= byte <= 57
    ||| byte == 0x2D
    ||| byte == 0x5F
    ||| byte == 0x2E
    ||| byte == 0x21
    ||| byte == 0x7E
    ||| byte == 0x2A
    ||| byte == 0x27
    ||| byte == 0x28
    ||| byte == 0x29
}

/// An upper-case hexadecimal digit.
pub open spec fn hex_digit(value: int) -> char {
    if value < 10 {
        (48 + value) as char
    } else {
        (55 + value) as char
    }
}

/// One byte in percent encoding.
pub open spec fn percent_byte(byte: u8) -> Seq<char> {
    if is_unreserved(byte) {
        seq![byte as char]
    } else {
        seq!['%', hex_digit(byte as int / 16), hex_digit(byte as int % 16)]
    }
}

/// Bytes in percent encoding.
pub open spec fn percent_text(bytes: Seq<u8>) -> Seq<char>
    decreases bytes.len(),
{
    if bytes.len() == 0 {
        seq![]
    } else {
        percent_text(bytes.drop_last()) + percent_byte(bytes.last())
    }
}

fn hex_char(value: u8) -> (c: char)
    requires
        value < 16,
    ensures
        c == hex_digit(value as int),
{
    if value < 10 {
        (48u8 + value) as char
    } else {
        (55u8 + value) as char
    }
}

/// `encodeURIComponent`, for guild and video names in API paths.
pub fn encode_component(value: &str) -> (out: String)
    ensures
        out@ == percent_text(vstd::utf8::encode_utf8(value@)),
{
    let bytes = value.as_bytes();
    let mut out = String::new();
    let mut i: usize = 0;
    while i < bytes.len()
        invariant
            i <= bytes@.len(),
            out@ == percent_text(bytes@.take(i as int)),
        decreases bytes@.len() - i,
    {
        let byte: u8 = bytes[i];
        assert(bytes@.take(i + 1).drop_last() =~= bytes@.take(i as int));
        if (65 <= byte && byte <= 90) || (97 <= byte && byte <= 122) || (48 <= byte && byte <= 57)
            || byte == 0x2D || byte == 0x5F || byte == 0x2E || byte == 0x21 || byte == 0x7E || byte
            == 0x2A || byte == 0x27 || byte == 0x28 || byte == 0x29 {
            out.push(byte as char);
        } else {
            out.push('%');
            out.push(hex_char(byte / 16));
            out.push(hex_char(byte % 16));
        }
        i = i + 1;
    }
    assert(bytes@.take(i as int) =~= bytes@);
    out
}

/// What stands in a name after percent encoding: unreserved characters, and
/// per cent signs with upper-case hexadecimal digits. No separator of a path
/// or a query survives.
pub proof fn encoded_names_hold_no_separator(bytes: Seq<u8>)
    ensures
        forall|i: int|
            0 <= i < percent_text(bytes).len() ==> {
                let c = #[trigger] percent_text(bytes)[i];
                c == '%' || ((c as int) < 128 && is_unreserved(c as u8))
            },
        !percent_text(bytes).contains('/'),
        !percent_text(bytes).contains('?'),
        !percent_text(bytes).contains('#'),
    decreases bytes.len(),
{
    if bytes.len() > 0 {
        encoded_names_hold_no_separator(bytes.drop_last());
        let piece = percent_byte(bytes.last());
        assert forall|i: int| 0 <= i < piece.len() implies ({
            let c = #[trigger] piece[i];
            c == '%' || ((c as int) < 128 && is_unreserved(c as u8))
        }) by {}
    }
}

/// The value of an upper-case hexadecimal digit.
pub open spec fn hex_value(c: char) -> int {
    if c as int <= 57 {
        c as int - 48
    } else {
        c as int - 55
    }
}

/// The bytes that a percent-encoded text stands for.
pub open spec fn percent_bytes(text: Seq<char>) -> Seq<u8>
    decreases text.len(),
{
    if text.len() == 0 {
        seq![]
    } else if text[0] == '%' && text.len() >= 3 {
        seq![(hex_value(text[1]) * 16 + hex_value(text[2])) as u8] + percent_bytes(text.skip(3))
    } else {
        seq![text[0] as u8] + percent_bytes(text.skip(1))
    }
}

proof fn lemma_percent_first(bytes: Seq<u8>)
    requires
        bytes.len() > 0,
    ensures
        percent_text(bytes) == percent_byte(bytes[0]) + percent_text(bytes.skip(1)),
    decreases bytes.len(),
{
    if bytes.len() == 1 {
        assert(bytes.drop_last() =~= seq![]);
        assert(bytes.skip(1) =~= seq![]);
        assert(percent_text(bytes) =~= percent_byte(bytes[0]) + percent_text(bytes.skip(1)));
    } else {
        lemma_percent_first(bytes.drop_last());
        assert(bytes.drop_last().skip(1) =~= bytes.skip(1).drop_last());
        assert(percent_text(bytes) =~= percent_byte(bytes[0]) + percent_text(bytes.skip(1)));
    }
}

/// Nothing is lost: the bytes of a name can be read back from its encoding,
/// so different names never share a path.
pub proof fn percent_encoding_reads_back(bytes: Seq<u8>)
    ensures
        percent_bytes(percent_text(bytes)) == bytes,
    decreases bytes.len(),
{
    if bytes.len() > 0 {
        lemma_percent_first(bytes);
        percent_encoding_reads_back(bytes.skip(1));
        let out = percent_text(bytes);
        let piece = percent_byte(bytes[0]);
        assert(out.skip(piece.len() as int) =~= percent_text(bytes.skip(1)));
        assert(seq![bytes[0]] + bytes.skip(1) =~= bytes);
        if !is_unreserved(bytes[0]) {
            assert(out[0] == '%');
            assert(hex_value(out[1]) * 16 + hex_value(out[2]) == bytes[0]);
        } else {
            assert(out[0] == bytes[0] as char);
        }
    }
}

} // verus!
