//! Reading the arguments of a C call.
//!
//! A pointer that may be null arrives as an `Option`. A C string arrives as the bytes before its
//! terminating NUL, an array of C strings as a slice of such (each of them may be null).

use vstd::prelude::*;
use vstd::slice::slice_subrange;
use vstd::utf8::{
    decode_utf8, decode_utf8_encode_utf8, encode_utf8, encode_utf8_decode_utf8,
    encode_utf8_valid_utf8, valid_utf8,
};

use crate::error::{invalid_arg, CallError};
use crate::text::texts;

verus! {

/// What a C string says: its text, or the reason why it is refused.
pub open spec fn c_string(p: Option<&[u8]>) -> Result<Seq<char>, Seq<char>> {
    match p {
        None => Err("null string pointer"@),
        Some(bytes) => if valid_utf8(bytes@) {
            Ok(decode_utf8(bytes@))
        } else {
            Err("string is not valid UTF-8"@)
        },
    }
}

/// The C string is readable and says `text`.
pub open spec fn says(p: Option<&[u8]>, text: Seq<char>) -> bool {
    c_string(p) == Ok::<Seq<char>, Seq<char>>(text)
}

/// What the first `n` strings of an array say: all their texts, or the reason why the first one
/// that is refused is.
pub open spec fn c_strings(items: Seq<Option<&[u8]>>, n: nat) -> Result<Seq<Seq<char>>, Seq<char>>
    decreases n,
{
    if n == 0 {
        Ok(Seq::empty())
    } else {
        match c_strings(items, (n - 1) as nat) {
            Err(reason) => Err(reason),
            Ok(before) => match c_string(items[n - 1]) {
                Err(reason) => Err(reason),
                Ok(text) => Ok(before.push(text)),
            },
        }
    }
}

/// What an array argument of `n` strings says. A null array is refused unless `n` is `0`.
pub open spec fn c_string_array(
    items: Option<&[Option<&[u8]>]>,
    n: usize,
) -> Result<Seq<Seq<char>>, Seq<char>> {
    if n == 0 {
        Ok(Seq::empty())
    } else {
        match items {
            None => Err("null values array"@),
            Some(items) => c_strings(items@, n as nat),
        }
    }
}

/// The array argument, where it is not null, holds `n` strings.
pub open spec fn holds_strings(items: Option<&[Option<&[u8]>]>, n: usize) -> bool {
    items matches Some(items) ==> n <= items@.len()
}

/// `core::str::from_utf8` accepts exactly the valid UTF-8 and hands back the text it encodes.
#[verifier::external_body]
fn utf8_text(bytes: &[u8]) -> (text: Option<&str>)
    ensures
        text is Some <==> valid_utf8(bytes@),
        text matches Some(s) ==> encode_utf8(s@) == bytes@,
{
    core::str::from_utf8(bytes).ok()
}

/// The database handle behind a pointer.
pub fn handle<H>(p: Option<&H>) -> (r: Result<&H, CallError>)
    ensures
        match p {
            Some(h) => r == Ok::<&H, CallError>(h),
            None => r matches Err(CallError::InvalidArg(reason)) && reason@
                == "null imbh_db handle"@,
        },
{
    match p {
        Some(h) => Ok(h),
        None => Err(invalid_arg("null imbh_db handle")),
    }
}

/// The text of a C string.
pub fn cstr(p: Option<&[u8]>) -> (r: Result<&str, CallError>)
    ensures
        match c_string(p) {
            Ok(text) => r matches Ok(s) && s@ == text,
            Err(reason) => r matches Err(CallError::InvalidArg(text)) && text@ == reason,
        },
{
    match p {
        None => Err(invalid_arg("null string pointer")),
        Some(bytes) => match utf8_text(bytes) {
            Some(s) => {
                proof {
                    encode_utf8_decode_utf8(s@);
                }
                Ok(s)
            },
            None => Err(invalid_arg("string is not valid UTF-8")),
        },
    }
}

/// The buffer argument, where it is not null, holds `len` bytes.
pub open spec fn holds_bytes(p: Option<&[u8]>, len: usize) -> bool {
    p matches Some(buffer) ==> len <= buffer@.len()
}

/// What a buffer argument of `len` bytes says. A null buffer is refused unless `len` is `0`.
pub open spec fn c_bytes(p: Option<&[u8]>, len: usize) -> Result<Seq<u8>, Seq<char>> {
    match p {
        Some(buffer) => Ok(buffer@.take(len as int)),
        None => if len == 0 {
            Ok(Seq::empty())
        } else {
            Err("null buffer pointer"@)
        },
    }
}

/// The first `len` bytes of a buffer; the buffer may be null if `len` is `0`.
pub fn bytes(p: Option<&[u8]>, len: usize) -> (r: Result<&[u8], CallError>)
    requires
        holds_bytes(p, len),
    ensures
        match c_bytes(p, len) {
            Ok(body) => r matches Ok(b) && b@ == body,
            Err(reason) => r matches Err(CallError::InvalidArg(text)) && text@ == reason,
        },
{
    match p {
        Some(buffer) => {
            let body = slice_subrange(buffer, 0, len);
            assert(body@ =~= buffer@.take(len as int));
            Ok(body)
        },
        None => if len == 0 {
            Ok(&[])
        } else {
            Err(invalid_arg("null buffer pointer"))
        },
    }
}

/// An owned copy of a C string.
pub fn read_str(p: Option<&[u8]>) -> (r: Result<String, CallError>)
    ensures
        match c_string(p) {
            Ok(text) => r matches Ok(s) && s@ == text,
            Err(reason) => r matches Err(CallError::InvalidArg(text)) && text@ == reason,
        },
{
    match cstr(p) {
        Ok(s) => Ok(s.to_owned()),
        Err(e) => Err(e),
    }
}

/// Owned copies of the first `n` strings of an array.
fn read_items(items: &[Option<&[u8]>], n: usize) -> (r: Result<Vec<String>, CallError>)
    requires
        n <= items@.len(),
    ensures
        match c_strings(items@, n as nat) {
            Ok(all) => r matches Ok(v) && texts(v@) == all,
            Err(reason) => r matches Err(CallError::InvalidArg(text)) && text@ == reason,
        },
{
    let mut out: Vec<String> = Vec::new();
    assert(texts(out@) =~= Seq::<Seq<char>>::empty());
    for i in 0..n
        invariant
            n <= items@.len(),
            c_strings(items@, i as nat) == Ok::<Seq<Seq<char>>, Seq<char>>(texts(out@)),
    {
        match read_str(items[i]) {
            Ok(s) => {
                let ghost before = out@;
                out.push(s);
                assert(texts(out@) =~= texts(before).push(s@));
            },
            Err(e) => {
                proof {
                    lemma_first_refusal_stands(items@, (i + 1) as nat, n as nat);
                }
                return Err(e);
            },
        }
    }
    Ok(out)
}

/// Once a string is refused, the strings behind it do not matter.
proof fn lemma_first_refusal_stands(items: Seq<Option<&[u8]>>, k: nat, n: nat)
    requires
        k <= n,
        c_strings(items, k) is Err,
    ensures
        c_strings(items, n) == c_strings(items, k),
    decreases n - k,
{
    if k < n {
        lemma_first_refusal_stands(items, k, (n - 1) as nat);
    }
}

/// Owned copies of the `n` strings of an array argument.
pub fn read_str_array(
    items: Option<&[Option<&[u8]>]>,
    n: usize,
) -> (r: Result<Vec<String>, CallError>)
    requires
        holds_strings(items, n),
    ensures
        match c_string_array(items, n) {
            Ok(all) => r matches Ok(v) && texts(v@) == all,
            Err(reason) => r matches Err(CallError::InvalidArg(text)) && text@ == reason,
        },
{
    if n == 0 {
        let out: Vec<String> = Vec::new();
        assert(texts(out@) =~= Seq::<Seq<char>>::empty());
        return Ok(out);
    }
    match items {
        None => Err(invalid_arg("null values array")),
        Some(items) => read_items(items, n),
    }
}

/// What the promoted keys of an options struct say. A null array means no keys, whatever `n` is.
pub open spec fn promoted_keys(
    items: Option<&[Option<&[u8]>]>,
    n: usize,
) -> Result<Seq<Seq<char>>, Seq<char>> {
    match items {
        None => Ok(Seq::empty()),
        Some(items) => c_strings(items@, n as nat),
    }
}

/// Owned copies of the promoted keys of an options struct.
pub fn read_promote_keys(
    items: Option<&[Option<&[u8]>]>,
    n: usize,
) -> (r: Result<Vec<String>, CallError>)
    requires
        holds_strings(items, n),
    ensures
        match promoted_keys(items, n) {
            Ok(all) => r matches Ok(v) && texts(v@) == all,
            Err(reason) => r matches Err(CallError::InvalidArg(text)) && text@ == reason,
        },
{
    match items {
        None => {
            let out: Vec<String> = Vec::new();
            assert(texts(out@) =~= Seq::<Seq<char>>::empty());
            Ok(out)
        },
        Some(items) => read_items(items, n),
    }
}

/// Every text can be passed as a C string and is read back unchanged.
pub proof fn texts_survive_the_boundary(text: Seq<char>, p: &[u8])
    requires
        p@ == encode_utf8(text),
    ensures
        c_string(Some(p)) == Ok::<Seq<char>, Seq<char>>(text),
{
    encode_utf8_valid_utf8(text);
    encode_utf8_decode_utf8(text);
}

/// An array is read whole exactly when each of its strings is readable, and in order.
pub proof fn arrays_are_read_in_order(items: Seq<Option<&[u8]>>, n: nat)
    requires
        n <= items.len(),
    ensures
        c_strings(items, n) is Ok <==> (forall|i: int|
            0 <= i < n ==> c_string(#[trigger] items[i]) is Ok),
        c_strings(items, n) matches Ok(all) ==> all.len() == n && (forall|i: int|
            0 <= i < n ==> c_string(items[i]) == Ok::<Seq<char>, Seq<char>>(#[trigger] all[i])),
    decreases n,
{
    if n > 0 {
        arrays_are_read_in_order(items, (n - 1) as nat);
    }
}

/// A C string says the text that its bytes encode. Null and bytes that encode no text are refused,
/// each for its own reason.
pub proof fn c_strings_say_what_they_encode(
    bytes: &[u8],
    text: Seq<char>,
    borrowed: Result<&str, CallError>,
    owned: Result<String, CallError>,
)
    requires
        call_ensures(cstr, (Some(bytes),), borrowed),
        call_ensures(read_str, (Some(bytes),), owned),
    ensures
        bytes@ == encode_utf8(text) ==> {
            &&& borrowed matches Ok(s) && s@ == text
            &&& owned matches Ok(s) && s@ == text
        },
        borrowed matches Ok(s) ==> encode_utf8(s@) == bytes@,
        !valid_utf8(bytes@) ==> {
            &&& borrowed matches Err(CallError::InvalidArg(m)) && m@ == "string is not valid UTF-8"@
            &&& owned matches Err(CallError::InvalidArg(m)) && m@ == "string is not valid UTF-8"@
        },
        borrowed is Ok <==> valid_utf8(bytes@),
        owned is Ok <==> valid_utf8(bytes@),
        c_string(None) == Err::<Seq<char>, Seq<char>>("null string pointer"@),
        says(Some(bytes), text) <==> valid_utf8(bytes@) && encode_utf8(text) == bytes@,
{
    if bytes@ == encode_utf8(text) {
        texts_survive_the_boundary(text, bytes);
    }
    if valid_utf8(bytes@) {
        decode_utf8_encode_utf8(bytes@);
    }
}

/// A null pointer is refused wherever a string, a handle or a buffer with bytes in it is needed.
pub proof fn null_pointers_are_refused<H>(
    text: Result<&str, CallError>,
    body: Result<&[u8], CallError>,
    len: usize,
    h: Result<&H, CallError>,
    list: Result<Vec<String>, CallError>,
)
    requires
        call_ensures(cstr, (None::<&[u8]>,), text),
        call_ensures(bytes, (None::<&[u8]>, len), body),
        call_ensures(handle::<H>, (None::<&H>,), h),
        call_ensures(read_str_array, (None::<&[Option<&[u8]>]>, len), list),
    ensures
        text matches Err(CallError::InvalidArg(m)) && m@ == "null string pointer"@,
        h matches Err(CallError::InvalidArg(m)) && m@ == "null imbh_db handle"@,
        len > 0 ==> (body matches Err(CallError::InvalidArg(m)) && m@ == "null buffer pointer"@),
        len > 0 ==> (list matches Err(CallError::InvalidArg(m)) && m@ == "null values array"@),
        len == 0 ==> (body matches Ok(b) && b@.len() == 0),
        len == 0 ==> (list matches Ok(v) && v@.len() == 0),
{
    if let Ok(v) = list {
        assert(texts(v@).len() == v@.len());
    }
}

/// A buffer is read up to its length, byte by byte, and a handle is the one behind the pointer.
pub proof fn buffers_are_read_up_to_their_length<H>(
    p: &[u8],
    len: usize,
    body: Result<&[u8], CallError>,
    db: &H,
    h: Result<&H, CallError>,
)
    requires
        len <= p@.len(),
        call_ensures(bytes, (Some(p), len), body),
        call_ensures(handle::<H>, (Some(db),), h),
    ensures
        body matches Ok(b) && b@.len() == len && (forall|i: int|
            0 <= i < len ==> #[trigger] b@[i] == p@[i]),
        c_bytes(Some(p), len) matches Ok(sent) && sent == p@.take(len as int),
        h == Ok::<&H, CallError>(db),
{
}

/// The strings of an array are read in order, and the first one that cannot be read decides why an
/// array is refused. Promoted keys are read alike, but a null array of them stands for none.
pub proof fn the_first_unreadable_string_decides(
    items: &[Option<&[u8]>],
    n: usize,
    r: Result<Vec<String>, CallError>,
    keys: Result<Vec<String>, CallError>,
    nulls: Result<Vec<String>, CallError>,
    k: int,
)
    requires
        n <= items@.len(),
        0 <= k < n,
        call_ensures(read_str_array, (Some(items), n), r),
        call_ensures(read_promote_keys, (Some(items), n), keys),
        call_ensures(read_promote_keys, (None::<&[Option<&[u8]>]>, n), nulls),
        forall|i: int| 0 <= i < k ==> c_string(#[trigger] items@[i]) is Ok,
    ensures
        c_string(items@[k]) matches Err(reason) ==> {
            &&& r matches Err(CallError::InvalidArg(m)) && m@ == reason
            &&& keys matches Err(CallError::InvalidArg(m)) && m@ == reason
        },
        r matches Ok(v) ==> v@.len() == n && says(items@[k], v@[k]@),
        keys matches Ok(v) ==> v@.len() == n && says(items@[k], v@[k]@),
        nulls matches Ok(v) && v@.len() == 0,
{
    arrays_are_read_in_order(items@, n as nat);
    arrays_are_read_in_order(items@, k as nat);
    if c_string(items@[k]) is Err {
        assert(c_strings(items@, (k + 1) as nat) is Err);
        lemma_first_refusal_stands(items@, (k + 1) as nat, n as nat);
    }
    if let Ok(v) = r {
        assert(texts(v@).len() == v@.len());
        assert(texts(v@)[k] == v@[k]@);
    }
    if let Ok(v) = keys {
        assert(texts(v@).len() == v@.len());
        assert(texts(v@)[k] == v@[k]@);
    }
    if let Ok(v) = nulls {
        assert(texts(v@).len() == v@.len());
    }
}

/// An array or a buffer may be as long as what is behind its pointer and no longer, and null holds
/// whatever length is claimed for it.
pub proof fn lengths_go_up_to_what_is_there(items: &[Option<&[u8]>], buffer: &[u8], n: usize)
    ensures
        holds_strings(Some(items), n) <==> n <= items@.len(),
        holds_bytes(Some(buffer), n) <==> n <= buffer@.len(),
        holds_strings(None, n),
        holds_bytes(None, n),
{
}

} // verus!
