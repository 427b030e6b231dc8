//! Base64 framing of image payloads handed to the front end and to the OCR model.
use vstd::prelude::*;

verus! {

/// The character of the standard Base64 alphabet (RFC 4648, table 1) for a
/// 6-bit value.
pub open spec fn base64_digit(v: int) -> char {
    if v < 26 {
        (65 + v) as char
    } else if v < 52 {
        (97 + (v - 26)) as char
    } else if v < 62 {
        (48 + (v - 52)) as char
    } else if v == 62 {
        '+'
    } else {
        '/'
    }
}

/// The four characters of one final or inner group of one to three bytes;
/// missing bytes count as zero and their characters become `=`.
pub open spec fn base64_group(g: Seq<u8>) -> Seq<char> {
    let a = g[0] as int;
    let b = if g.len() > 1 {
        g[1] as int
    } else {
        0
    };
    let c = if g.len() > 2 {
        g[2] as int
    } else {
        0
    };
    seq![
        base64_digit(a / 4),
        base64_digit((a % 4) * 16 + b / 16),
        if g.len() > 1 {
            base64_digit((b % 16) * 4 + c / 64)
        } else {
            '='
        },
        if g.len() > 2 {
            base64_digit(c % 64)
        } else {
            '='
        },
    ]
}

/// Standard Base64 with `=` padding (RFC 4648, section 4): every group of
/// three bytes becomes four characters; a final group of one or two bytes is
/// padded to four characters with `=`.
pub open spec fn base64_standard(s: Seq<u8>) -> Seq<char>
    decreases s.len(),
{
    if s.len() == 0 {
        Seq::empty()
    } else if s.len() <= 3 {
        base64_group(s)
    } else {
        base64_group(s.take(3)) + base64_standard(s.skip(3))
    }
}

/// Length of the padded Base64 text of `n` bytes.
pub open spec fn base64_len(n: nat) -> nat {
    4 * ((n + 2) / 3)
}

/// Whether a character can occur in padded standard Base64 text.
pub open spec fn is_base64_char(c: char) -> bool {
    ('A' <= c <= 'Z') || ('a' <= c <= 'z') || ('0' <= c <= '9') || c == '+' || c == '/' || c
        == '='
}

/// Calls `base64::Engine::encode` on `base64::engine::general_purpose::STANDARD`.
/// Claimed: the text is the padded standard Base64 encoding of the bytes, as
/// the crate documents. The call panics when the encoded length overflows
/// `usize`, which `requires` leaves out.
#[verifier::external_body]
fn standard_base64(bytes: &[u8]) -> (text: String)
    requires
        base64_len(bytes@.len()) <= usize::MAX,
    ensures
        text@ == base64_standard(bytes@),
{
    base64::Engine::encode(&base64::engine::general_purpose::STANDARD, bytes)
}

/// Whether `n` bytes can be Base64-encoded without the encoded length
/// overflowing `usize`.
pub fn base64_fits(n: usize) -> (ok: bool)
    ensures
        ok == (base64_len(n as nat) <= usize::MAX),
{
    let groups: usize = if n % 3 == 0 {
        n / 3
    } else {
        n / 3 + 1
    };
    assert(groups == (n as nat + 2) / 3);
    groups <= usize::MAX / 4
}

/// Padded standard Base64 text of `bytes`, or `None` when its length would not
/// fit in `usize`.
pub fn encode_base64(bytes: &[u8]) -> (text: Option<String>)
    ensures
        base64_len(bytes@.len()) <= usize::MAX ==> (text matches Some(t) && t@
            == base64_standard(bytes@)),
        base64_len(bytes@.len()) > usize::MAX ==> text is None,
{
    if base64_fits(bytes.len()) {
        Some(standard_base64(bytes))
    } else {
        None
    }
}

/// The selected screenshot as Base64 text, as the front end displays it.
pub fn fetch_selected_image(bin: &Vec<u8>) -> (text: String)
    requires
        base64_len(bin@.len()) <= usize::MAX,
    ensures
        text@ == base64_standard(bin@),
{
    standard_base64(bin.as_slice())
}

/// The characters of one group are alphabet characters or padding.
proof fn lemma_group_chars(g: Seq<u8>)
    requires
        1 <= g.len() <= 3,
    ensures
        base64_group(g).len() == 4,
        forall|i: int| 0 <= i < 4 ==> is_base64_char(#[trigger] base64_group(g)[i]),
{
    assert forall|v: int| 0 <= v < 64 implies is_base64_char(#[trigger] base64_digit(v)) by {}
    let a = g[0] as int;
    let b = if g.len() > 1 {
        g[1] as int
    } else {
        0
    };
    let c = if g.len() > 2 {
        g[2] as int
    } else {
        0
    };
    assert(0 <= a / 4 < 64);
    assert(0 <= (a % 4) * 16 + b / 16 < 64);
    assert(0 <= (b % 16) * 4 + c / 64 < 64);
    assert(0 <= c % 64 < 64);
}

/// Base64 text is four characters for every started group of three bytes,
/// and holds only alphabet characters and padding.
pub proof fn lemma_base64_shape(s: Seq<u8>)
    ensures
        base64_standard(s).len() == base64_len(s.len()),
        forall|i: int|
            0 <= i < base64_standard(s).len() ==> is_base64_char(#[trigger] base64_standard(s)[i]),
    decreases s.len(),
{
    if s.len() == 0 {
    } else if s.len() <= 3 {
        lemma_group_chars(s);
    } else {
        lemma_base64_shape(s.skip(3));
        lemma_group_chars(s.take(3));
        let head = base64_group(s.take(3));
        let tail = base64_standard(s.skip(3));
        assert forall|i: int| 0 <= i < (head + tail).len() implies is_base64_char(
            #[trigger] (head + tail)[i],
        ) by {
            if i >= 4 {
                assert((head + tail)[i] == tail[i - 4]);
            } else {
                assert((head + tail)[i] == head[i]);
            }
        }
    }
}

/// Base64 text of a concatenation whose first part is a whole number of
/// three-byte groups is the concatenation of the texts.
pub proof fn lemma_base64_concat(a: Seq<u8>, b: Seq<u8>)
    requires
        a.len() % 3 == 0,
    ensures
        base64_standard(a + b) == base64_standard(a) + base64_standard(b),
    decreases a.len(),
{
    if a.len() == 0 {
        assert(a + b =~= b);
        assert(base64_standard(a) =~= Seq::<char>::empty());
        assert(base64_standard(a) + base64_standard(b) =~= base64_standard(b));
    } else {
        assert((a + b).skip(3) =~= a.skip(3) + b);
        assert((a + b).take(3) =~= a.take(3));
        lemma_base64_concat(a.skip(3), b);
        if a.len() == 3 {
            assert(a.take(3) =~= a);
            assert(a.skip(3) =~= Seq::<u8>::empty());
            assert(base64_standard(a.skip(3)) =~= Seq::<char>::empty());
            if b.len() == 0 {
                assert(a + b =~= a);
                assert(base64_standard(b) =~= Seq::<char>::empty());
                assert(base64_standard(a) + base64_standard(b) =~= base64_standard(a));
            } else {
                assert(a.skip(3) + b =~= b);
            }
        } else {
            assert(base64_standard(a) + base64_standard(b) =~= base64_group(a.take(3)) + (
            base64_standard(a.skip(3)) + base64_standard(b)));
        }
    }
}

/// The 6-bit value of a character of the standard Base64 alphabet.
pub open spec fn base64_value(c: char) -> int {
    if 'A' <= c <= 'Z' {
        c as int - 65
    } else if 'a' <= c <= 'z' {
        c as int - 97 + 26
    } else if '0' <= c <= '9' {
        c as int - 48 + 52
    } else if c == '+' {
        62
    } else {
        63
    }
}

/// The one to three bytes that a group of four Base64 characters stands for;
/// `=` in the third or fourth place marks missing bytes.
pub open spec fn base64_ungroup(g: Seq<char>) -> Seq<u8> {
    let v0 = base64_value(g[0]);
    let v1 = base64_value(g[1]);
    let v2 = base64_value(g[2]);
    let v3 = base64_value(g[3]);
    let a = (v0 * 4 + v1 / 16) as u8;
    let b = ((v1 % 16) * 16 + v2 / 4) as u8;
    let c = ((v2 % 4) * 64 + v3) as u8;
    if g[2] == '=' {
        seq![a]
    } else if g[3] == '=' {
        seq![a, b]
    } else {
        seq![a, b, c]
    }
}

/// Decoding of padded standard Base64 text, four characters at a time.
pub open spec fn base64_decode(text: Seq<char>) -> Seq<u8>
    decreases text.len(),
{
    if text.len() < 4 {
        Seq::empty()
    } else {
        base64_ungroup(text.take(4)) + base64_decode(text.skip(4))
    }
}

proof fn lemma_value_of_digit(v: int)
    requires
        0 <= v < 64,
    ensures
        base64_value(base64_digit(v)) == v,
        base64_digit(v) != '=',
{
}

proof fn lemma_group_roundtrip(g: Seq<u8>)
    requires
        1 <= g.len() <= 3,
    ensures
        base64_ungroup(base64_group(g)) == g,
{
    let a = g[0] as int;
    let b = if g.len() > 1 {
        g[1] as int
    } else {
        0
    };
    let c = if g.len() > 2 {
        g[2] as int
    } else {
        0
    };
    lemma_value_of_digit(a / 4);
    lemma_value_of_digit((a % 4) * 16 + b / 16);
    lemma_value_of_digit((b % 16) * 4 + c / 64);
    lemma_value_of_digit(c % 64);
    let t = base64_group(g);
    assert(base64_value(t[0]) == a / 4);
    assert(base64_value(t[1]) == (a % 4) * 16 + b / 16);
    if g.len() > 1 {
        assert(base64_value(t[2]) == (b % 16) * 4 + c / 64);
        assert(t[2] != '=');
    }
    if g.len() > 2 {
        assert(base64_value(t[3]) == c % 64);
        assert(t[3] != '=');
    }
    assert((a / 4) * 4 + ((a % 4) * 16 + b / 16) / 16 == a);
    assert((((a % 4) * 16 + b / 16) % 16) * 16 + ((b % 16) * 4 + c / 64) / 4 == b);
    assert((((b % 16) * 4 + c / 64) % 4) * 64 + c % 64 == c);
    assert(base64_ungroup(t) =~= g);
}

/// Base64 text decodes back to the bytes it encodes.
pub proof fn lemma_base64_roundtrip(s: Seq<u8>)
    ensures
        base64_decode(base64_standard(s)) == s,
    decreases s.len(),
{
    if s.len() == 0 {
        assert(base64_decode(base64_standard(s)) =~= s);
    } else if s.len() <= 3 {
        lemma_group_roundtrip(s);
        let t = base64_group(s);
        assert(t.take(4) =~= t);
        assert(t.skip(4) =~= Seq::<char>::empty());
        assert(base64_decode(t.skip(4)) =~= Seq::<u8>::empty());
        assert(base64_decode(t) =~= s);
    } else {
        let head = s.take(3);
        let rest = s.skip(3);
        lemma_group_roundtrip(head);
        lemma_base64_roundtrip(rest);
        let t = base64_standard(s);
        let gt = base64_group(head);
        assert(t == gt + base64_standard(rest));
        assert(t.take(4) =~= gt);
        assert(t.skip(4) =~= base64_standard(rest));
        assert(s =~= head + rest);
    }
}

} // verus!
