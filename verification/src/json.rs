//! The JSON text of the error responses.
use vstd::prelude::*;

verus! {

/// The lowercase hexadecimal digit of a value below 16.
pub open spec fn hex_digit(d: int) -> char {
    if d < 10 {
        (48 + d) as char
    } else {
        (87 + d) as char
    }
}

/// How `serde_json` writes one character inside a string literal: a quote, a
/// backslash, and the control characters below U+0020 are escaped (the five
/// with a short escape by it, the others as `\u00` and two lowercase hex
/// digits); every other character stands for itself.
pub open spec fn escaped_char(c: char) -> Seq<char> {
    if c == '"' {
        seq!['\\', '"']
    } else if c == '\\' {
        seq!['\\', '\\']
    } else if c == '\x08' {
        seq!['\\', 'b']
    } else if c == '\t' {
        seq!['\\', 't']
    } else if c == '\n' {
        seq!['\\', 'n']
    } else if c == '\x0c' {
        seq!['\\', 'f']
    } else if c == '\r' {
        seq!['\\', 'r']
    } else if (c as int) < 0x20 {
        seq!['\\', 'u', '0', '0', hex_digit((c as int) / 16), hex_digit((c as int) % 16)]
    } else {
        seq![c]
    }
}

/// Each character of the text written as `escaped_char` writes it.
pub open spec fn escaped(s: Seq<char>) -> Seq<char>
    decreases s.len(),
{
    if s.len() == 0 {
        Seq::empty()
    } else {
        escaped(s.drop_last()) + escaped_char(s.last())
    }
}

/// The JSON string literal that `serde_json` writes for a text: the escaped
/// text between double quotes.
pub open spec fn json_string(s: Seq<char>) -> Seq<char> {
    seq!['"'] + escaped(s) + seq!['"']
}

/// Calls `serde_json::to_string` on a string slice. Serializing a `str`
/// cannot fail (it writes into a `Vec`), so the `Result` is unwrapped. The
/// contract claims what `format_escaped_str` writes: the text between double
/// quotes, with the characters of its escape table escaped (`json_string`).
#[verifier::external_body]
pub(crate) fn to_json_string(s: &str) -> (r: String)
    ensures
        r@ == json_string(s@),
{
    serde_json::to_string(s).unwrap()
}

/// The items joined with commas.
pub open spec fn comma_joined(items: Seq<Seq<char>>) -> Seq<char>
    decreases items.len(),
{
    if items.len() == 0 {
        Seq::empty()
    } else if items.len() == 1 {
        items[0]
    } else {
        comma_joined(items.drop_last()) + ","@ + items.last()
    }
}

/// The compact JSON object with the key `causes` bound to the array of the
/// given (already encoded) values and the key `error` bound to the given
/// (already encoded) value, keys in sorted order.
pub open spec fn error_object(error: Seq<char>, causes: Seq<Seq<char>>) -> Seq<char> {
    "{\"causes\":["@ + comma_joined(causes) + "],\"error\":"@ + error + "}"@
}

/// Writes the error object from an encoded error value and encoded causes.
pub fn error_object_text(error: &str, causes: &Vec<String>) -> (r: String)
    ensures
        r@ == error_object(error@, causes@.map_values(|c: String| c@)),
{
    let ghost items = causes@.map_values(|c: String| c@);
    let mut out = "{\"causes\":[".to_owned();
    let n = causes.len();
    let mut k: usize = 0;
    while k < n
        invariant
            n == causes.len(),
            items == causes@.map_values(|c: String| c@),
            k <= n,
            out@ == "{\"causes\":["@ + comma_joined(items.take(k as int)),
        decreases n - k,
    {
        let ghost before = out@;
        if k > 0 {
            out.append(",");
        }
        out.append(causes[k].as_str());
        proof {
            let next = items.take(k + 1);
            assert(next.drop_last() =~= items.take(k as int));
            assert(next.last() == causes[k as int]@);
            if k == 0 {
                assert(items.take(0) =~= Seq::<Seq<char>>::empty());
            }
            assert(out@ =~= "{\"causes\":["@ + comma_joined(next));
        }
        k += 1;
    }
    assert(items.take(n as int) =~= items);
    out.append("],\"error\":");
    out.append(error);
    out.append("}");
    assert(out@ =~= error_object(error@, items));
    out
}

} // verus!
