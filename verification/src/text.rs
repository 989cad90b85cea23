//! Text building blocks shared by the SDK session and the commands:
//! decimal numbers, JSON string literals and lossy UTF-8 decoding.

use vstd::prelude::*;
use vstd::utf8::{decode_utf8, valid_utf8};

verus! {

// ---------------------------------------------------------------------------
// Decimal numbers
// ---------------------------------------------------------------------------

/// The character of a decimal digit `d` (0 to 9).
pub open spec fn digit_char(d: int) -> char {
    (48 + d) as char
}

/// The decimal text of a natural number, without leading zeros.
pub open spec fn nat_text(n: nat) -> Seq<char>
    decreases n,
{
    if n < 10 {
        seq![digit_char(n as int)]
    } else {
        nat_text(n / 10).push(digit_char((n % 10) as int))
    }
}

/// The decimal text of an integer, with a leading `-` when it is negative,
/// as Rust's `Display` writes integers.
pub open spec fn int_text(i: int) -> Seq<char> {
    if i < 0 {
        seq!['-'] + nat_text((-i) as nat)
    } else {
        nat_text(i as nat)
    }
}

fn digit_str(d: u64) -> (s: &'static str)
    requires
        d < 10,
    ensures
        s@ == seq![digit_char(d as int)],
{
    proof {
        reveal_strlit("0");
        reveal_strlit("1");
        reveal_strlit("2");
        reveal_strlit("3");
        reveal_strlit("4");
        reveal_strlit("5");
        reveal_strlit("6");
        reveal_strlit("7");
        reveal_strlit("8");
        reveal_strlit("9");
    }
    match d {
        0 => "0",
        1 => "1",
        2 => "2",
        3 => "3",
        4 => "4",
        5 => "5",
        6 => "6",
        7 => "7",
        8 => "8",
        _ => "9",
    }
}

/// Appends the decimal text of `n` to `out`.
pub fn push_nat(out: &mut String, n: u64)
    ensures
        final(out)@ == old(out)@ + nat_text(n as nat),
    decreases n,
{
    if n >= 10 {
        push_nat(out, n / 10);
    }
    out.append(digit_str(n % 10));
}

/// Appends the decimal text of `i` to `out`, `-` first when it is negative.
pub fn push_int(out: &mut String, i: i64)
    ensures
        final(out)@ == old(out)@ + int_text(i as int),
{
    proof {
        reveal_strlit("-");
    }
    if i < 0 {
        out.append("-");
        let magnitude: u64 = ((-(i + 1)) as u64) + 1;
        push_nat(out, magnitude);
        assert(out@ =~= old(out)@ + int_text(i as int));
    } else {
        push_nat(out, i as u64);
    }
}

/// The decimal text of `i`.
pub fn int_to_text(i: i64) -> (s: String)
    ensures
        s@ == int_text(i as int),
{
    let mut s = String::new();
    push_int(&mut s, i);
    assert(s@ =~= int_text(i as int));
    s
}

// ---------------------------------------------------------------------------
// Results as text
// ---------------------------------------------------------------------------

/// A result of texts, by the views of its texts.
pub open spec fn text_result(r: Result<String, String>) -> Result<Seq<char>, Seq<char>> {
    match r {
        Ok(t) => Ok(t@),
        Err(e) => Err(e@),
    }
}

/// A result of nothing or a text, by the view of its text.
pub open spec fn unit_result(r: Result<(), String>) -> Result<(), Seq<char>> {
    match r {
        Ok(_) => Ok(()),
        Err(e) => Err(e@),
    }
}

// ---------------------------------------------------------------------------
// JSON string literals
// ---------------------------------------------------------------------------

/// A lower-case hexadecimal digit (0 to 15).
pub open spec fn hex_digit(n: int) -> char {
    if n < 10 {
        (48 + n) as char
    } else {
        (87 + n) as char
    }
}

/// How one character stands inside a JSON string literal: `"` and `\` and the
/// control characters below U+0020 are escaped, everything else stands as it is.
pub open spec fn escaped_char(c: char) -> Seq<char> {
    if c == '"' {
        seq!['\\', '"']
    } else if c == '\\' {
        seq!['\\', '\\']
    } else if c == '\x08' {
        seq!['\\', 'b']
    } else if c == '\t' {
        seq!['\\', 't']
    } else if c == '\n' {
        seq!['\\', 'n']
    } else if c == '\x0c' {
        seq!['\\', 'f']
    } else if c == '\r' {
        seq!['\\', 'r']
    } else if (c as int) < 0x20 {
        seq!['\\', 'u', '0', '0', hex_digit((c as int) / 16), hex_digit((c as int) % 16)]
    } else {
        seq![c]
    }
}

/// The escaped body of a JSON string literal.
pub open spec fn escaped_text(s: Seq<char>) -> Seq<char>
    decreases s.len(),
{
    if s.len() == 0 {
        Seq::empty()
    } else {
        escaped_text(s.drop_last()) + escaped_char(s.last())
    }
}

/// The JSON string literal of `s`: its escaped text between double quotes.
pub open spec fn json_string_literal(s: Seq<char>) -> Seq<char> {
    seq!['"'] + escaped_text(s) + seq!['"']
}

/// A character that JSON needs no escape for.
pub open spec fn plain_json_char(c: char) -> bool {
    c != '"' && c != '\\' && (c as int) >= 0x20
}

/// A text that stands unchanged inside a JSON string literal.
pub open spec fn plain_json_text(s: Seq<char>) -> bool {
    forall|i: int| 0 <= i < s.len() ==> plain_json_char(#[trigger] s[i])
}

/// Text without control characters (nothing below U+0020, NUL among them).
pub open spec fn no_control_chars(s: Seq<char>) -> bool {
    forall|i: int| 0 <= i < s.len() ==> (#[trigger] s[i] as int) >= 0x20
}

/// Decimal text consists of digits only.
pub proof fn lemma_nat_text_is_digits(n: nat)
    ensures
        forall|i: int| 0 <= i < nat_text(n).len() ==> '0' <= #[trigger] nat_text(n)[i] <= '9',
    decreases n,
{
    let t = nat_text(n);
    if n >= 10 {
        lemma_nat_text_is_digits(n / 10);
        let head = nat_text(n / 10);
        assert forall|i: int| 0 <= i < t.len() implies '0' <= #[trigger] t[i] <= '9' by {
            if i < head.len() {
                assert(t[i] == head[i]);
            } else {
                assert(t[i] == digit_char((n % 10) as int));
            }
        }
    } else {
        assert(t[0] == digit_char(n as int));
    }
}

/// Joining two texts without control characters gives one without them.
pub proof fn lemma_concat_no_control_chars(a: Seq<char>, b: Seq<char>)
    requires
        no_control_chars(a),
        no_control_chars(b),
    ensures
        no_control_chars(a + b),
{
    assert forall|i: int| 0 <= i < (a + b).len() implies (#[trigger] (a + b)[i] as int) >= 0x20 by {
        if i < a.len() {
            assert((a + b)[i] == a[i]);
        } else {
            assert((a + b)[i] == b[i - a.len()]);
        }
    }
}

/// A plain text escapes to itself.
pub proof fn lemma_plain_text_escapes_to_itself(s: Seq<char>)
    requires
        plain_json_text(s),
    ensures
        escaped_text(s) == s,
    decreases s.len(),
{
    if s.len() > 0 {
        assert(plain_json_char(s[s.len() - 1]));
        assert forall|i: int| 0 <= i < s.drop_last().len() implies plain_json_char(
            #[trigger] s.drop_last()[i],
        ) by {
            assert(s.drop_last()[i] == s[i]);
        }
        lemma_plain_text_escapes_to_itself(s.drop_last());
        assert(s.drop_last().push(s.last()) =~= s);
    }
}

/// The escape of one character has no control character in it.
pub proof fn lemma_escaped_char_has_no_control_chars(c: char)
    ensures
        no_control_chars(escaped_char(c)),
{
    let v = c as int;
    if v < 0x20 && c != '\x08' && c != '\t' && c != '\n' && c != '\x0c' && c != '\r' {
        assert(0 <= v / 16 < 2);
        assert(0 <= v % 16 < 16);
    }
}

/// No escape produces a control character.
pub proof fn lemma_escaped_text_has_no_control_chars(s: Seq<char>)
    ensures
        no_control_chars(escaped_text(s)),
    decreases s.len(),
{
    if s.len() > 0 {
        lemma_escaped_text_has_no_control_chars(s.drop_last());
        let e = escaped_char(s.last());
        lemma_escaped_char_has_no_control_chars(s.last());
        let a = escaped_text(s.drop_last());
        assert forall|i: int| 0 <= i < (a + e).len() implies (#[trigger] (a + e)[i] as int)
            >= 0x20 by {
            if i < a.len() {
                assert((a + e)[i] == a[i]);
            } else {
                assert((a + e)[i] == e[i - a.len()]);
            }
        }
    }
}

/// A JSON string literal has no control character in it.
pub proof fn lemma_json_string_literal_has_no_control_chars(s: Seq<char>)
    ensures
        no_control_chars(json_string_literal(s)),
{
    lemma_escaped_text_has_no_control_chars(s);
    let e = escaped_text(s);
    let l = json_string_literal(s);
    assert forall|i: int| 0 <= i < l.len() implies (#[trigger] l[i] as int) >= 0x20 by {
        if i == 0 {
            assert(l[i] == '"');
        } else if i < 1 + e.len() {
            assert(l[i] == e[i - 1]);
        } else {
            assert(l[i] == '"');
        }
    }
}

#[verifier::external_type_specification]
#[verifier::external_body]
pub struct ExJsonError(serde_json::Error);

/// `serde_json::to_string` on a `&str`: the string serialiser of serde_json
/// writes `"`, then the text with `"`, `\` and every byte below 0x20 escaped
/// (short escapes `\b \t \n \f \r`, otherwise `\u00` and two lower-case hex
/// digits), then `"`; writing into a `Vec` cannot fail, so the result is
/// always `Ok`.
#[verifier::external_body]
fn serde_json_to_string(s: &str) -> (r: Result<String, serde_json::Error>)
    ensures
        r is Ok,
        r->Ok_0@ == json_string_literal(s@),
{
    serde_json::to_string(s)
}

/// The JSON string literal of `s`, as serde_json writes it.
pub fn json_string(s: &str) -> (r: String)
    ensures
        r@ == json_string_literal(s@),
{
    match serde_json_to_string(s) {
        Ok(text) => text,
        Err(_) => String::new(),
    }
}

// ---------------------------------------------------------------------------
// Lossy UTF-8
// ---------------------------------------------------------------------------

/// What `String::from_utf8_lossy` makes of a byte sequence.
pub uninterp spec fn utf8_lossy(bytes: Seq<u8>) -> Seq<char>;

/// `String::from_utf8_lossy(bytes).into_owned()`: std documents that valid
/// UTF-8 is decoded as it is and that invalid sequences are replaced by
/// U+FFFD; the contract names the result and states the valid case.
#[verifier::external_body]
pub(crate) fn from_utf8_lossy(bytes: &[u8]) -> (s: String)
    ensures
        s@ == utf8_lossy(bytes@),
        valid_utf8(bytes@) ==> s@ == decode_utf8(bytes@),
{
    String::from_utf8_lossy(bytes).into_owned()
}

} // verus!
