//! Bytes written and read in hexadecimal.
use vstd::prelude::*;

verus! {

/// The lower case hexadecimal digit of a value below 16.
pub open spec fn hex_digit(v: int) -> char {
    if v < 10 {
        (48 + v) as char
    } else {
        (87 + v) as char
    }
}

/// The bytes in lower case hexadecimal, two digits for each, the high half first.
pub open spec fn hex_text(bytes: Seq<u8>) -> Seq<char> {
    Seq::new(
        2 * bytes.len(),
        |i: int|
            if i % 2 == 0 {
                hex_digit(bytes[i / 2] as int / 16)
            } else {
                hex_digit(bytes[i / 2] as int % 16)
            },
    )
}

/// Whether the byte is a hexadecimal digit, in either case.
pub open spec fn is_hex_symbol(b: u8) -> bool {
    48 <= b <= 57 || 65 <= b <= 70 || 97 <= b <= 102
}

/// The value of a hexadecimal digit.
pub open spec fn hex_value(b: u8) -> int
    recommends
        is_hex_symbol(b),
{
    if b <= 57 {
        b - 48
    } else if b <= 70 {
        b - 55
    } else {
        b - 87
    }
}

/// Whether the input is made of pairs of hexadecimal digits.
pub open spec fn is_hex(input: Seq<u8>) -> bool {
    &&& input.len() % 2 == 0
    &&& forall|i: int| 0 <= i < input.len() ==> is_hex_symbol(#[trigger] input[i])
}

/// The bytes that pairs of hexadecimal digits stand for.
pub open spec fn hex_bytes(input: Seq<u8>) -> Seq<u8> {
    Seq::new(
        input.len() / 2,
        |i: int| (16 * hex_value(input[2 * i]) + hex_value(input[2 * i + 1])) as u8,
    )
}

/// The character in lower case, where it is a hexadecimal digit.
pub open spec fn lower_case(c: char) -> char {
    if 'A' <= c <= 'F' {
        (c as int + 32) as char
    } else {
        c
    }
}

/// What is wrong with an input that should be hexadecimal.
#[derive(Debug, Clone, Copy, PartialEq, Eq, Structural)]
pub enum HexErrorKind {
    /// The length is odd.
    Length,
    /// A byte is no hexadecimal digit.
    Symbol,
    /// The last digit has bits to spare.
    Trailing,
    /// The padding has the wrong length.
    Padding,
}

/// Where and why an input is not hexadecimal.
#[derive(Debug, Clone, Copy, PartialEq, Eq, Structural)]
pub struct HexError {
    /// The position in the input, in bytes.
    pub position: usize,
    /// What is wrong there.
    pub kind: HexErrorKind,
}

impl HexError {
    /// Whether this is the error of the input. An odd length is found before any
    /// wrong digit, and of the wrong digits the first counts.
    pub open spec fn is_of(self, input: Seq<u8>) -> bool {
        if input.len() % 2 == 1 {
            self.kind == HexErrorKind::Length && self.position == input.len() - 1
        } else {
            &&& self.kind == HexErrorKind::Symbol
            &&& self.position < input.len()
            &&& !is_hex_symbol(input[self.position as int])
            &&& forall|i: int| 0 <= i < self.position ==> is_hex_symbol(#[trigger] input[i])
        }
    }
}

/// `HEXLOWER_PERMISSIVE.encode` of data-encoding: two lower case digits for each byte,
/// the high half first. It asserts the bound on the length.
#[verifier::external_body]
pub(crate) fn encode(bytes: &[u8]) -> (text: String)
    requires
        bytes@.len() <= usize::MAX / 512,
    ensures
        text@ == hex_text(bytes@),
{
    data_encoding::HEXLOWER_PERMISSIVE.encode(bytes)
}

/// `HEXLOWER_PERMISSIVE.decode` of data-encoding: succeeds exactly on pairs of digits of
/// either case. It looks at the length first, then for the first byte that is no digit,
/// and asserts the bound on the length.
#[verifier::external_body]
fn decode(input: &[u8]) -> (r: Result<Vec<u8>, HexError>)
    requires
        input@.len() <= usize::MAX / 8,
    ensures
        r is Ok <==> is_hex(input@),
        r matches Ok(bytes) ==> bytes@ == hex_bytes(input@),
        r matches Err(error) ==> error.is_of(input@),
{
    data_encoding::HEXLOWER_PERMISSIVE.decode(input).map_err(
        |error| HexError {
            position: error.position,
            kind: match error.kind {
                data_encoding::DecodeKind::Length => HexErrorKind::Length,
                data_encoding::DecodeKind::Symbol => HexErrorKind::Symbol,
                data_encoding::DecodeKind::Trailing => HexErrorKind::Trailing,
                data_encoding::DecodeKind::Padding => HexErrorKind::Padding,
            },
        },
    )
}

/// Bytes that are shown and read in hexadecimal.
#[derive(Debug)]
pub struct Hex(pub Vec<u8>);

impl View for Hex {
    type V = Seq<u8>;

    open spec fn view(&self) -> Seq<u8> {
        self.0@
    }
}

impl Clone for Hex {
    fn clone(&self) -> (hex: Hex)
        ensures
            hex@ == self@,
    {
        let bytes = self.0.clone();
        assert(bytes@ =~= self@);
        Hex(bytes)
    }
}

impl Hex {
    /// Shows the bytes: two lower case digits for each.
    pub fn to_string(&self) -> (text: String)
        requires
            self@.len() <= usize::MAX / 512,
        ensures
            text@ == hex_text(self@),
    {
        encode(self.0.as_slice())
    }

    /// Reads bytes from pairs of digits, in either case.
    pub fn from_str(input: &str) -> (r: Result<Hex, HexError>)
        requires
            vstd::utf8::encode_utf8(input@).len() <= usize::MAX / 8,
        ensures
            r is Ok <==> is_hex(vstd::utf8::encode_utf8(input@)),
            r matches Ok(hex) ==> hex@ == hex_bytes(vstd::utf8::encode_utf8(input@)),
            r matches Err(error) ==> error.is_of(vstd::utf8::encode_utf8(input@)),
    {
        match decode(input.as_bytes()) {
            Ok(bytes) => Ok(Hex(bytes)),
            Err(error) => Err(error),
        }
    }
}

/// Reading gives back what was shown: for all bytes, their text is read without error,
/// and as those bytes.
pub proof fn law_shown_bytes_are_read_back(bytes: Seq<u8>)
    ensures
        is_hex(vstd::utf8::encode_utf8(hex_text(bytes))),
        hex_bytes(vstd::utf8::encode_utf8(hex_text(bytes))) == bytes,
{
    let text = hex_text(bytes);
    vstd::utf8::is_ascii_chars_encode_utf8(text);
    let input = vstd::utf8::encode_utf8(text);
    assert(hex_bytes(input) =~= bytes) by {
        assert forall|i: int| 0 <= i < bytes.len() implies hex_bytes(input)[i] == bytes[i] by {
            assert(input[2 * i] == text[2 * i] as u8);
            assert(input[2 * i + 1] == text[2 * i + 1] as u8);
            assert((2 * i) / 2 == i && (2 * i + 1) / 2 == i);
        }
    }
}

/// Showing gives back what was read, in lower case: for each text that is read without
/// error, the bytes are shown as that text with its digits in lower case.
pub proof fn law_read_text_is_shown_in_lower_case(text: Seq<char>)
    requires
        is_hex(vstd::utf8::encode_utf8(text)),
    ensures
        hex_text(hex_bytes(vstd::utf8::encode_utf8(text))) == text.map_values(|c: char| lower_case(c)),
{
    let input = vstd::utf8::encode_utf8(text);
    let plain = Seq::new(input.len(), |i: int| input[i] as char);
    vstd::utf8::is_ascii_chars_encode_utf8(plain);
    assert(vstd::utf8::encode_utf8(plain) =~= input);
    vstd::utf8::encode_utf8_decode_utf8(plain);
    vstd::utf8::encode_utf8_decode_utf8(text);
    assert(text == plain);
    let shown = hex_text(hex_bytes(input));
    let lower = text.map_values(|c: char| lower_case(c));
    assert forall|i: int| 0 <= i < input.len() implies shown[i] == lower[i] by {
        let k = i / 2;
        assert(is_hex_symbol(input[2 * k]) && is_hex_symbol(input[2 * k + 1]));
        let high = hex_value(input[2 * k]);
        let low = hex_value(input[2 * k + 1]);
        assert(hex_bytes(input)[k] == (16 * high + low) as u8);
        assert((16 * high + low) / 16 == high && (16 * high + low) % 16 == low);
    }
    assert(shown =~= lower);
}

/// Each byte is shown as the digit of its high half, then that of its low half.
pub proof fn law_bytes_are_shown_by_their_halves(hex: Hex, text: String)
    requires
        call_ensures(Hex::to_string, (&hex,), text),
    ensures
        ({
            let digits = "0123456789abcdef"@;
            &&& text@.len() == 2 * hex.0@.len()
            &&& forall|i: int|
                0 <= i < hex.0@.len() ==> text@[2 * i] == digits[(#[trigger] hex.0@[i]) as int / 16]
                    && text@[2 * i + 1] == digits[hex.0@[i] as int % 16]
        }),
{
    reveal_strlit("0123456789abcdef");
    let digits = "0123456789abcdef"@;
    assert forall|i: int| 0 <= i < hex.0@.len() implies text@[2 * i] == digits[(
    #[trigger] hex.0@[i]) as int / 16] && text@[2 * i + 1] == digits[hex.0@[i] as int % 16] by {
        assert((2 * i) / 2 == i && (2 * i + 1) / 2 == i);
        let high = hex.0@[i] as int / 16;
        let low = hex.0@[i] as int % 16;
        lemma_digit(high);
        lemma_digit(low);
    }
}

proof fn lemma_digit(v: int)
    requires
        0 <= v < 16,
    ensures
        hex_digit(v) == "0123456789abcdef"@[v],
{
    reveal_strlit("0123456789abcdef");
}

/// A text is read exactly if it has an even length and no character but hexadecimal digits,
/// and each pair of them, in either case, is read as the byte with these halves. An odd
/// length is an error at the end, and else the first wrong byte is.
pub proof fn law_bytes_are_read_by_their_halves(input: &str, r: Result<Hex, HexError>)
    requires
        call_ensures(Hex::from_str, (input,), r),
    ensures
        ({
            let bytes = vstd::utf8::encode_utf8(input@);
            let lower = "0123456789abcdef"@;
            let upper = "0123456789ABCDEF"@;
            &&& r is Ok <==> bytes.len() % 2 == 0 && forall|i: int|
                0 <= i < bytes.len() ==> {
                    ||| lower.contains((#[trigger] bytes[i]) as char)
                    ||| upper.contains(bytes[i] as char)
                }
            &&& r matches Ok(hex) ==> 2 * hex.0@.len() == bytes.len() && forall|i: int|
                0 <= i < hex.0@.len() ==> {
                    let high = (#[trigger] hex.0@[i]) as int / 16;
                    let low = hex.0@[i] as int % 16;
                    &&& bytes[2 * i] as char == lower[high] || bytes[2 * i] as char == upper[high]
                    &&& bytes[2 * i + 1] as char == lower[low] || bytes[2 * i + 1] as char
                        == upper[low]
                }
            &&& r matches Err(error) ==> if bytes.len() % 2 == 1 {
                error.kind is Length && error.position + 1 == bytes.len()
            } else {
                &&& error.kind is Symbol
                &&& error.position < bytes.len()
                &&& !lower.contains(bytes[error.position as int] as char)
                &&& !upper.contains(bytes[error.position as int] as char)
                &&& forall|i: int|
                    0 <= i < error.position ==> {
                        ||| lower.contains((#[trigger] bytes[i]) as char)
                        ||| upper.contains(bytes[i] as char)
                    }
            }
        }),
{
    let bytes = vstd::utf8::encode_utf8(input@);
    let lower = "0123456789abcdef"@;
    let upper = "0123456789ABCDEF"@;
    assert forall|i: int| 0 <= i < bytes.len() implies (is_hex_symbol(#[trigger] bytes[i]) <==> (
    lower.contains(bytes[i] as char) || upper.contains(bytes[i] as char))) by {
        lemma_symbol(bytes[i]);
    }
    if let Ok(hex) = r {
        assert forall|i: int| 0 <= i < hex.0@.len() implies ({
            let high = (#[trigger] hex.0@[i]) as int / 16;
            let low = hex.0@[i] as int % 16;
            &&& bytes[2 * i] as char == lower[high] || bytes[2 * i] as char == upper[high]
            &&& bytes[2 * i + 1] as char == lower[low] || bytes[2 * i + 1] as char == upper[low]
        }) by {
            lemma_symbol(bytes[2 * i]);
            lemma_symbol(bytes[2 * i + 1]);
            let high = hex_value(bytes[2 * i]);
            let low = hex_value(bytes[2 * i + 1]);
            assert(is_hex_symbol(bytes[2 * i]) && is_hex_symbol(bytes[2 * i + 1]));
            assert(hex.0@[i] == (16 * high + low) as u8);
            assert((16 * high + low) / 16 == high && (16 * high + low) % 16 == low);
        }
    }
}

proof fn lemma_symbol(b: u8)
    ensures
        is_hex_symbol(b) <==> "0123456789abcdef"@.contains(b as char)
            || "0123456789ABCDEF"@.contains(b as char),
        is_hex_symbol(b) ==> 0 <= hex_value(b) < 16 && (b as char
            == "0123456789abcdef"@[hex_value(b)] || b as char == "0123456789ABCDEF"@[hex_value(
            b,
        )]),
{
    reveal_strlit("0123456789abcdef");
    reveal_strlit("0123456789ABCDEF");
    let lower = "0123456789abcdef"@;
    let upper = "0123456789ABCDEF"@;
    if lower.contains(b as char) {
        let i = lower.index_of(b as char);
        assert(lower[i] == b as char);
    }
    if upper.contains(b as char) {
        let i = upper.index_of(b as char);
        assert(upper[i] == b as char);
    }
    if is_hex_symbol(b) {
        let v = hex_value(b);
        assert(lower[v] == b as char || upper[v] == b as char);
    }
}

} // verus!
