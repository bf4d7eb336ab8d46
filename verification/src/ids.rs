//! Trace and span ids and their hexadecimal form.

use vstd::prelude::*;

verus! {

/// A 16-byte trace id.
#[derive(Debug, Clone, Copy)]
pub struct TraceId {
    pub bytes: [u8; 16],
}

/// An 8-byte span id.
#[derive(Debug, Clone, Copy)]
pub struct SpanId {
    pub bytes: [u8; 8],
}

/// The value of a hexadecimal digit of either case.
pub open spec fn digit_value(c: char) -> Option<u8> {
    if '0' <= c <= '9' {
        Some((c as u8 - '0' as u8) as u8)
    } else if 'a' <= c <= 'f' {
        Some((c as u8 - 'a' as u8 + 10) as u8)
    } else if 'A' <= c <= 'F' {
        Some((c as u8 - 'A' as u8 + 10) as u8)
    } else {
        None
    }
}

/// The lowercase digit of a value under 16.
pub open spec fn digit_of(v: u8) -> char {
    if v < 10 {
        ('0' as u8 + v) as char
    } else {
        ('a' as u8 + v - 10) as char
    }
}

/// The text is made of `2 * n` hexadecimal digits.
pub open spec fn is_hex(text: Seq<char>, n: nat) -> bool {
    &&& text.len() == 2 * n
    &&& forall|i: int| 0 <= i < text.len() ==> digit_value(#[trigger] text[i]) is Some
}

/// The bytes that hexadecimal digits spell, two digits a byte, the high one first.
pub open spec fn spelled(text: Seq<char>) -> Seq<u8> {
    Seq::new(
        text.len() / 2,
        |i: int|
            (digit_value(text[2 * i])->Some_0 * 16 + digit_value(text[2 * i + 1])->Some_0) as u8,
    )
}

/// The lowercase hexadecimal digits of bytes.
pub open spec fn hex_text(bytes: Seq<u8>) -> Seq<char> {
    Seq::new(
        2 * bytes.len(),
        |i: int|
            if i % 2 == 0 {
                digit_of(bytes[i / 2] / 16)
            } else {
                digit_of(bytes[i / 2] % 16)
            },
    )
}

/// The value of a digit.
fn hex_val(c: char) -> (r: Option<u8>)
    ensures
        r == digit_value(c),
        r matches Some(v) ==> v < 16,
{
    if '0' <= c && c <= '9' {
        Some(c as u8 - '0' as u8)
    } else if 'a' <= c && c <= 'f' {
        Some(c as u8 - 'a' as u8 + 10)
    } else if 'A' <= c && c <= 'F' {
        Some(c as u8 - 'A' as u8 + 10)
    } else {
        None
    }
}

/// The digit of a value.
fn hex_digit(v: u8) -> (c: char)
    requires
        v < 16,
    ensures
        c == digit_of(v),
{
    if v < 10 {
        ('0' as u8 + v) as char
    } else {
        ('a' as u8 + (v - 10)) as char
    }
}

/// The bytes that `2 * n` hexadecimal digits spell, or `None` when the text is anything else.
pub fn hex_decode(text: &str, n: usize) -> (r: Option<Vec<u8>>)
    ensures
        r is Some <==> is_hex(text@, n as nat),
        r matches Some(bytes) ==> bytes@ == spelled(text@) && bytes@.len() == n,
{
    let mut out: Vec<u8> = Vec::new();
    let mut high: Option<u8> = None;
    for c in chars: text.chars()
        invariant
            chars.seq() == text@,
            out@.len() <= n,
            chars.index() == 2 * out@.len() + (if high is Some {
                1int
            } else {
                0
            }),
            forall|i: int|
                0 <= i < chars.index() ==> digit_value(#[trigger] text@[i]) is Some,
            high matches Some(h) ==> Some(h) == digit_value(text@[chars.index() - 1]) && h < 16,
            out@ == spelled(text@.take(2 * out@.len() as int)),
    {
        let v: u8 = match hex_val(c) {
            Some(v) => v,
            None => {
                assert(digit_value(text@[chars.index() as int]) is None);
                return None;
            },
        };
        if out.len() >= n {
            return None;
        }
        match high {
            None => {
                high = Some(v);
            },
            Some(h) => {
                let ghost k: int = out@.len() as int;
                out.push(h * 16 + v);
                high = None;
                assert(out@ =~= spelled(text@.take(2 * (k + 1))));
            },
        }
    }
    if high.is_some() || out.len() != n {
        return None;
    }
    assert(text@.take(text@.len() as int) =~= text@);
    Some(out)
}

/// The lowercase hexadecimal digits of bytes.
pub fn hex_lower(bytes: &[u8]) -> (text: String)
    ensures
        text@ == hex_text(bytes@),
{
    let mut text = String::new();
    for i in 0..bytes.len()
        invariant
            text@ == hex_text(bytes@.take(i as int)),
    {
        let b: u8 = bytes[i];
        text.push(hex_digit(b / 16));
        text.push(hex_digit(b % 16));
        assert(text@ =~= hex_text(bytes@.take(i + 1)));
    }
    assert(bytes@.take(bytes@.len() as int) =~= bytes@);
    text
}

impl TraceId {
    /// Parse 32 hexadecimal digits of either case.
    pub fn from_hex(text: &str) -> (r: Option<TraceId>)
        ensures
            r is Some <==> is_hex(text@, 16),
            r matches Some(id) ==> id.bytes@ == spelled(text@),
    {
        match hex_decode(text, 16) {
            None => None,
            Some(v) => {
                let mut bytes: [u8; 16] = [0u8;16];
                for i in 0..16
                    invariant
                        v@.len() == 16,
                        forall|j: int| 0 <= j < i ==> bytes@[j] == v@[j],
                {
                    bytes[i] = v[i];
                }
                assert(bytes@ =~= v@);
                Some(TraceId { bytes })
            },
        }
    }

    /// The 32 lowercase hexadecimal digits of the id.
    pub fn to_hex(&self) -> (text: String)
        ensures
            text@ == hex_text(self.bytes@),
    {
        hex_lower(self.bytes.as_slice())
    }
}

impl SpanId {
    /// The 16 lowercase hexadecimal digits of the id.
    pub fn to_hex(&self) -> (text: String)
        ensures
            text@ == hex_text(self.bytes@),
    {
        hex_lower(self.bytes.as_slice())
    }
}

/// The text in lower case, as far as hexadecimal digits go.
pub open spec fn lower_digits(text: Seq<char>) -> Seq<char> {
    text.map_values(
        |c: char|
            if 'A' <= c <= 'F' {
                (c as u8 + 32) as char
            } else {
                c
            },
    )
}

/// The digits of an id can be read back: they are accepted and spell the id.
pub proof fn hex_text_is_read_back(bytes: Seq<u8>)
    ensures
        is_hex(hex_text(bytes), bytes.len()),
        spelled(hex_text(bytes)) == bytes,
{
    let text = hex_text(bytes);
    assert forall|i: int| 0 <= i < text.len() implies digit_value(#[trigger] text[i]) is Some by {
    }
    assert forall|i: int| 0 <= i < bytes.len() implies spelled(text)[i] == bytes[i] by {
        let b = bytes[i];
        assert((2 * i) / 2 == i && (2 * i) % 2 == 0);
        assert((2 * i + 1) / 2 == i && (2 * i + 1) % 2 == 1);
        assert(text[2 * i] == digit_of(b / 16));
        assert(text[2 * i + 1] == digit_of(b % 16));
        assert(digit_value(digit_of(b / 16)) == Some((b / 16) as u8));
        assert(digit_value(digit_of(b % 16)) == Some((b % 16) as u8));
    }
    assert(spelled(text) =~= bytes);
}

/// Reading an id ignores the case of its digits: the id is written back in lower case.
pub proof fn ids_are_written_back_in_lower_case(text: Seq<char>, n: nat)
    requires
        is_hex(text, n),
    ensures
        hex_text(spelled(text)) == lower_digits(text),
{
    let bytes = spelled(text);
    assert forall|i: int| 0 <= i < text.len() implies #[trigger] hex_text(bytes)[i]
        == lower_digits(text)[i] by {
        let k = i / 2;
        assert(digit_value(text[2 * k]) is Some && digit_value(text[2 * k + 1]) is Some);
        let h = digit_value(text[2 * k])->Some_0;
        let l = digit_value(text[2 * k + 1])->Some_0;
        assert(bytes[k] == h * 16 + l);
        assert(h < 16 && l < 16);
        assert(bytes[k] / 16 == h && bytes[k] % 16 == l);
        assert(i == 2 * k || i == 2 * k + 1);
    }
    assert(hex_text(bytes) =~= lower_digits(text));
}

/// The sixteen digits have their values, in lower case and in upper case.
proof fn lemma_digits(v: int)
    requires
        0 <= v < 16,
    ensures
        "0123456789abcdef"@.len() == 16,
        "0123456789ABCDEF"@.len() == 16,
        digit_of(v as u8) == "0123456789abcdef"@[v],
        digit_value("0123456789abcdef"@[v]) == Some(v as u8),
        digit_value("0123456789ABCDEF"@[v]) == Some(v as u8),
{
    reveal_strlit("0123456789abcdef");
    reveal_strlit("0123456789ABCDEF");
    assert(v == 0 || v == 1 || v == 2 || v == 3 || v == 4 || v == 5 || v == 6 || v == 7 || v == 8
        || v == 9 || v == 10 || v == 11 || v == 12 || v == 13 || v == 14 || v == 15);
}

/// A digit with a value is one of the sixteen, in one of the cases.
proof fn lemma_digit_of_value(c: char)
    requires
        digit_value(c) is Some,
    ensures
        digit_value(c)->Some_0 < 16,
        c == "0123456789abcdef"@[digit_value(c)->Some_0 as int] || c
            == "0123456789ABCDEF"@[digit_value(c)->Some_0 as int],
{
    reveal_strlit("0123456789abcdef");
    reveal_strlit("0123456789ABCDEF");
    let v = digit_value(c)->Some_0;
    assert(v == 0 || v == 1 || v == 2 || v == 3 || v == 4 || v == 5 || v == 6 || v == 7 || v == 8
        || v == 9 || v == 10 || v == 11 || v == 12 || v == 13 || v == 14 || v == 15);
}

/// An id is written byte by byte, each as the digit of its high half and the digit of its low half.
pub proof fn ids_are_written_digit_by_digit(
    id: TraceId,
    text: String,
    span: SpanId,
    span_text: String,
    i: int,
)
    requires
        call_ensures(TraceId::to_hex, (&id,), text),
        call_ensures(SpanId::to_hex, (&span,), span_text),
    ensures
        text@.len() == 32,
        span_text@.len() == 16,
        0 <= i < 16 ==> {
            &&& text@[2 * i] == "0123456789abcdef"@[id.bytes@[i] as int / 16]
            &&& text@[2 * i + 1] == "0123456789abcdef"@[id.bytes@[i] as int % 16]
        },
        0 <= i < 8 ==> {
            &&& span_text@[2 * i] == "0123456789abcdef"@[span.bytes@[i] as int / 16]
            &&& span_text@[2 * i + 1] == "0123456789abcdef"@[span.bytes@[i] as int % 16]
        },
        hex_text(id.bytes@) == text@,
        hex_text(span.bytes@) == span_text@,
{
    if 0 <= i < 16 {
        assert((2 * i) / 2 == i && (2 * i) % 2 == 0);
        assert((2 * i + 1) / 2 == i && (2 * i + 1) % 2 == 1);
        lemma_digits(id.bytes@[i] as int / 16);
        lemma_digits(id.bytes@[i] as int % 16);
    }
    if 0 <= i < 8 {
        lemma_digits(span.bytes@[i] as int / 16);
        lemma_digits(span.bytes@[i] as int % 16);
    }
}

/// An id is read from exactly the texts of 32 digits, of either case, and each of its bytes has the
/// first of its two digits as its high half and the second as its low half.
pub proof fn ids_are_read_digit_by_digit(text: &str, r: Option<TraceId>, i: int)
    requires
        call_ensures(TraceId::from_hex, (text,), r),
        0 <= i < 16,
    ensures
        r is Some <==> text@.len() == 32 && (forall|j: int|
            0 <= j < 32 ==> "0123456789abcdef"@.contains(#[trigger] text@[j])
                || "0123456789ABCDEF"@.contains(text@[j])),
        r matches Some(id) ==> {
            let (high, low) = (id.bytes@[i] as int / 16, id.bytes@[i] as int % 16);
            &&& text@[2 * i] == "0123456789abcdef"@[high] || text@[2 * i]
                == "0123456789ABCDEF"@[high]
            &&& text@[2 * i + 1] == "0123456789abcdef"@[low] || text@[2 * i + 1]
                == "0123456789ABCDEF"@[low]
        },
        r matches Some(id) ==> id.bytes@ == spelled(text@),
        r is Some <==> is_hex(text@, 16),
{
    lemma_digits(0);
    assert forall|j: int| 0 <= j < text@.len() implies (digit_value(#[trigger] text@[j]) is Some
        <==> ("0123456789abcdef"@.contains(text@[j]) || "0123456789ABCDEF"@.contains(text@[j])))
        by {
        let c = text@[j];
        if digit_value(c) is Some {
            lemma_digit_of_value(c);
            let v = digit_value(c)->Some_0 as int;
            lemma_digits(v);
            assert("0123456789abcdef"@.contains("0123456789abcdef"@[v]));
            assert("0123456789ABCDEF"@.contains("0123456789ABCDEF"@[v]));
        }
        if "0123456789abcdef"@.contains(c) {
            let v = choose|v: int| 0 <= v < 16 && "0123456789abcdef"@[v] == c;
            lemma_digits(v);
        }
        if "0123456789ABCDEF"@.contains(c) {
            let v = choose|v: int| 0 <= v < 16 && "0123456789ABCDEF"@[v] == c;
            lemma_digits(v);
        }
    }
    if let Some(id) = r {
        lemma_digit_of_value(text@[2 * i]);
        lemma_digit_of_value(text@[2 * i + 1]);
        let (h, l) = (digit_value(text@[2 * i])->Some_0, digit_value(text@[2 * i + 1])->Some_0);
        assert(id.bytes@[i] == (h * 16 + l) as u8);
        assert((h * 16 + l) / 16 == h && (h * 16 + l) % 16 == l);
    }
}

/// Bytes of any number are written two digits a byte, the high half first, and read from exactly
/// the texts of that many digits, of either case.
pub proof fn bytes_are_written_and_read_digit_by_digit(
    bytes: &[u8],
    written: String,
    text: &str,
    n: usize,
    read: Option<Vec<u8>>,
    i: int,
)
    requires
        call_ensures(hex_lower, (bytes,), written),
        call_ensures(hex_decode, (text, n), read),
    ensures
        written@.len() == 2 * bytes@.len(),
        0 <= i < bytes@.len() ==> {
            &&& written@[2 * i] == "0123456789abcdef"@[bytes@[i] as int / 16]
            &&& written@[2 * i + 1] == "0123456789abcdef"@[bytes@[i] as int % 16]
        },
        read is Some <==> text@.len() == 2 * n && (forall|j: int|
            0 <= j < text@.len() ==> "0123456789abcdef"@.contains(#[trigger] text@[j])
                || "0123456789ABCDEF"@.contains(text@[j])),
        read matches Some(v) ==> v@.len() == n && (0 <= i < n ==> {
            let (high, low) = (v@[i] as int / 16, v@[i] as int % 16);
            &&& text@[2 * i] == "0123456789abcdef"@[high] || text@[2 * i]
                == "0123456789ABCDEF"@[high]
            &&& text@[2 * i + 1] == "0123456789abcdef"@[low] || text@[2 * i + 1]
                == "0123456789ABCDEF"@[low]
        }),
{
    lemma_digits(0);
    if 0 <= i < bytes@.len() {
        assert((2 * i) / 2 == i && (2 * i) % 2 == 0);
        assert((2 * i + 1) / 2 == i && (2 * i + 1) % 2 == 1);
        lemma_digits(bytes@[i] as int / 16);
        lemma_digits(bytes@[i] as int % 16);
    }
    assert forall|j: int| 0 <= j < text@.len() implies (digit_value(#[trigger] text@[j]) is Some
        <==> ("0123456789abcdef"@.contains(text@[j]) || "0123456789ABCDEF"@.contains(text@[j])))
        by {
        let c = text@[j];
        if digit_value(c) is Some {
            lemma_digit_of_value(c);
            let v = digit_value(c)->Some_0 as int;
            lemma_digits(v);
            assert("0123456789abcdef"@.contains("0123456789abcdef"@[v]));
            assert("0123456789ABCDEF"@.contains("0123456789ABCDEF"@[v]));
        }
        if "0123456789abcdef"@.contains(c) {
            let v = choose|v: int| 0 <= v < 16 && "0123456789abcdef"@[v] == c;
            lemma_digits(v);
        }
        if "0123456789ABCDEF"@.contains(c) {
            let v = choose|v: int| 0 <= v < 16 && "0123456789ABCDEF"@[v] == c;
            lemma_digits(v);
        }
    }
    if let Some(v) = read {
        if 0 <= i < n {
            lemma_digit_of_value(text@[2 * i]);
            lemma_digit_of_value(text@[2 * i + 1]);
            let (h, l) = (digit_value(text@[2 * i])->Some_0, digit_value(text@[2 * i + 1])->Some_0);
            assert(v@[i] == (h * 16 + l) as u8);
            assert((h * 16 + l) / 16 == h && (h * 16 + l) % 16 == l);
        }
    }
}

} // verus!
