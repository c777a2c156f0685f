//! Bytes as the text that carries them: the standard base64 alphabet with padding.
use base64::Engine;
use vstd::prelude::*;

verus! {

/// The symbol of the standard alphabet for a number of six bits.
pub open spec fn symbol(n: int) -> char {
    if n < 26 {
        ('A' as int + n) as char
    } else if n < 52 {
        ('a' as int + (n - 26)) as char
    } else if n < 62 {
        ('0' as int + (n - 52)) as char
    } else if n == 62 {
        '+'
    } else {
        '/'
    }
}

/// The text that carries `bytes`: four symbols for every three bytes, each for six bits of
/// them in order, and what is missing of the last three filled up with zeros and told by
/// padding.
pub open spec fn base64_text(bytes: Seq<u8>) -> Seq<char>
    decreases bytes.len(),
{
    if bytes.len() == 0 {
        Seq::empty()
    } else if bytes.len() == 1 {
        seq![symbol(bytes[0] as int / 4), symbol(bytes[0] % 4 * 16), '=', '=']
    } else if bytes.len() == 2 {
        seq![
            symbol(bytes[0] as int / 4),
            symbol(bytes[0] % 4 * 16 + bytes[1] / 16),
            symbol(bytes[1] % 16 * 4),
            '=',
        ]
    } else {
        seq![
            symbol(bytes[0] as int / 4),
            symbol(bytes[0] % 4 * 16 + bytes[1] / 16),
            symbol(bytes[1] % 16 * 4 + bytes[2] / 64),
            symbol(bytes[2] as int % 64),
        ] + base64_text(bytes.skip(3))
    }
}

/// Whether `text` is what carries `bytes`.
pub open spec fn carries(text: Seq<u8>, bytes: Seq<u8>) -> bool {
    text == vstd::utf8::encode_utf8(base64_text(bytes))
}

/// Whether `text` carries no bytes at all.
pub open spec fn carries_nothing(text: Seq<u8>) -> bool {
    forall|bytes: Seq<u8>| !carries(text, bytes)
}

/// How `base64::engine::general_purpose::STANDARD` complains of a text that carries no bytes.
pub uninterp spec fn base64_complaint(text: Seq<u8>) -> Seq<char>;

/// What is read from `text`: the bytes that it carries, or the complaint of a text that
/// carries none.
pub open spec fn base64_decoded(text: Seq<u8>) -> Result<Seq<u8>, Seq<char>> {
    if carries_nothing(text) {
        Err(base64_complaint(text))
    } else {
        Ok(choose|bytes: Seq<u8>| carries(text, bytes))
    }
}

/// Whether `text` is read as `bytes`.
pub open spec fn reads_as(text: Seq<u8>, bytes: Seq<u8>) -> bool {
    base64_decoded(text) == Result::<Seq<u8>, Seq<char>>::Ok(bytes)
}

/// What came of reading a text.
pub open spec fn outcome(read: Result<Vec<u8>, String>) -> Result<Seq<u8>, Seq<char>> {
    match read {
        Ok(bytes) => Ok(bytes@),
        Err(complaint) => Err(complaint@),
    }
}

/// Whether `bytes` are few enough for their text to fit in memory.
pub open spec fn has_text(bytes: Seq<u8>) -> bool {
    bytes.len() <= isize::MAX / 4 * 3
}

proof fn lemma_symbols_differ(one: int, other: int)
    requires
        0 <= one < 64,
        0 <= other < 64,
    ensures
        symbol(one) == symbol(other) <==> one == other,
        symbol(one) != '=',
        (symbol(one) as u32) < 0x80,
{
}

/// A text has four characters for every three bytes or part of them, all of them plain ones.
pub proof fn law_a_text_comes_in_fours(bytes: Seq<u8>)
    ensures
        base64_text(bytes).len() == (bytes.len() + 2) / 3 * 4,
        vstd::utf8::is_ascii_chars(base64_text(bytes)),
        vstd::utf8::encode_utf8(base64_text(bytes)).len() == base64_text(bytes).len(),
        has_text(bytes) <==> base64_text(bytes).len() <= isize::MAX,
    decreases bytes.len(),
{
    if bytes.len() > 0 {
        lemma_symbols_differ(bytes[0] as int / 4, 0);
        if bytes.len() == 1 {
            lemma_symbols_differ(bytes[0] as int % 4 * 16, 0);
        } else {
            lemma_symbols_differ(bytes[0] as int % 4 * 16 + bytes[1] as int / 16, 0);
            if bytes.len() == 2 {
                lemma_symbols_differ(bytes[1] as int % 16 * 4, 0);
            } else {
                lemma_symbols_differ(bytes[1] as int % 16 * 4 + bytes[2] as int / 64, 0);
                lemma_symbols_differ(bytes[2] as int % 64, 0);
                law_a_text_comes_in_fours(bytes.skip(3));
            }
        }
    }
    vstd::utf8::is_ascii_chars_encode_utf8(base64_text(bytes));
}

/// Different bytes have different texts.
pub proof fn law_different_bytes_have_different_texts(one: Seq<u8>, other: Seq<u8>)
    requires
        base64_text(one) == base64_text(other),
    ensures
        one == other,
    decreases one.len(),
{
    let text = base64_text(one);
    law_a_text_comes_in_fours(one);
    law_a_text_comes_in_fours(other);
    if one.len() == 0 {
        assert(one =~= other);
    } else {
        let a = one[0] as int;
        let b = other[0] as int;
        assert(text[0] == symbol(a / 4) && text[0] == symbol(b / 4));
        lemma_symbols_differ(a / 4, b / 4);
        let a1 = if one.len() > 1 { one[1] as int } else { 0 };
        let b1 = if other.len() > 1 { other[1] as int } else { 0 };
        assert(text[1] == symbol(a % 4 * 16 + a1 / 16));
        assert(text[1] == symbol(b % 4 * 16 + b1 / 16));
        lemma_symbols_differ(a % 4 * 16 + a1 / 16, b % 4 * 16 + b1 / 16);
        let a2 = if one.len() > 2 { one[2] as int } else { 0 };
        let b2 = if other.len() > 2 { other[2] as int } else { 0 };
        let a12 = a1 % 16 * 4 + a2 / 64;
        let b12 = b1 % 16 * 4 + b2 / 64;
        lemma_symbols_differ(a12, b12);
        lemma_symbols_differ(a2 % 64, b2 % 64);
        assert(text[2] == if one.len() > 1 { symbol(a12) } else { '=' });
        assert(text[2] == if other.len() > 1 { symbol(b12) } else { '=' });
        assert(text[3] == if one.len() > 2 { symbol(a2 % 64) } else { '=' });
        assert(text[3] == if other.len() > 2 { symbol(b2 % 64) } else { '=' });
        assert(one.len() > 1 <==> other.len() > 1);
        assert(one.len() > 2 <==> other.len() > 2);
        if one.len() > 2 {
            assert(text.skip(4) =~= base64_text(one.skip(3)));
            assert(text.skip(4) =~= base64_text(other.skip(3)));
            law_different_bytes_have_different_texts(one.skip(3), other.skip(3));
            assert(one =~= seq![one[0], one[1], one[2]] + one.skip(3));
            assert(other =~= seq![other[0], other[1], other[2]] + other.skip(3));
        } else {
            assert(one =~= other);
        }
    }
}

/// A text that carries bytes is read as these bytes and no others.
pub proof fn law_a_text_is_read_as_what_it_carries(text: Seq<u8>, bytes: Seq<u8>)
    ensures
        reads_as(text, bytes) <==> carries(text, bytes),
{
    if !carries_nothing(text) {
        let read = choose|bytes: Seq<u8>| carries(text, bytes);
        assert(carries(text, read));
        if carries(text, bytes) {
            vstd::utf8::encode_utf8_decode_utf8(base64_text(read));
            vstd::utf8::encode_utf8_decode_utf8(base64_text(bytes));
            law_different_bytes_have_different_texts(read, bytes);
        }
    }
}

/// A text of a length that is no multiple of four is not read: its padding is missing, or
/// more than that.
pub proof fn law_a_text_without_its_padding_is_refused(text: Seq<u8>)
    requires
        text.len() % 4 != 0,
    ensures
        base64_decoded(text) is Err,
{
    assert forall|bytes: Seq<u8>| !carries(text, bytes) by {
        law_a_text_comes_in_fours(bytes);
    }
}

/// The empty text carries no bytes more and no bytes less than none.
pub proof fn law_an_empty_text_is_read_as_no_bytes()
    ensures
        base64_text(Seq::empty()) == Seq::<char>::empty(),
        reads_as(Seq::empty(), Seq::empty()),
{
    law_a_text_is_read_as_what_it_carries(Seq::empty(), Seq::empty());
}

/// Calls `Engine::encode` of the standard engine, which writes bytes in the standard alphabet,
/// with padding. A text longer than memory can hold makes it panic.
#[verifier::external_body]
fn encode(bytes: &[u8]) -> (text: String)
    requires
        has_text(bytes@),
    ensures
        text@ == base64_text(bytes@),
{
    base64::engine::general_purpose::STANDARD.encode(bytes)
}

/// Calls `Engine::decode` of the standard engine, which reads the bytes that a text carries. It
/// takes no text but the one that the same engine writes for them: the padding has to be there,
/// and the bits that fill up the last symbol have to be zeros. It complains of every other text,
/// of the same text in the same words.
#[verifier::external_body]
fn decode(text: &[u8]) -> (bytes: Result<Vec<u8>, String>)
    ensures
        bytes matches Ok(read) ==> carries(text@, read@),
        bytes is Err ==> carries_nothing(text@),
        bytes matches Err(complaint) ==> complaint@ == base64_complaint(text@),
{
    base64::engine::general_purpose::STANDARD.decode(text).map_err(|error| error.to_string())
}

/// Tells whether `bytes` are few enough for their text to fit in memory.
pub fn fits(bytes: &[u8]) -> (fits: bool)
    ensures
        fits == has_text(bytes@),
{
    bytes.len() <= isize::MAX as usize / 4 * 3
}

/// Writes `bytes` as text.
pub fn to_text(bytes: &[u8]) -> (text: String)
    requires
        has_text(bytes@),
    ensures
        text@ == base64_text(bytes@),
        reads_as(vstd::utf8::encode_utf8(text@), bytes@),
{
    let text = encode(bytes);
    proof {
        law_a_text_is_read_as_what_it_carries(vstd::utf8::encode_utf8(text@), bytes@);
    }
    text
}

/// Reads the bytes that `text` carries.
pub fn read_text(text: &[u8]) -> (bytes: Result<Vec<u8>, String>)
    ensures
        outcome(bytes) == base64_decoded(text@),
{
    let bytes = decode(text);
    proof {
        if bytes is Ok {
            law_a_text_is_read_as_what_it_carries(text@, bytes->Ok_0@);
        }
    }
    bytes
}

/// Reads the bytes that `text` carries.
pub fn from_text(text: &str) -> (bytes: Result<Vec<u8>, String>)
    ensures
        outcome(bytes) == base64_decoded(vstd::utf8::encode_utf8(text@)),
{
    read_text(text.as_bytes())
}

/// The six bits that a symbol of the standard alphabet stands for.
pub open spec fn bits(symbol: char) -> int {
    if 'A' <= symbol <= 'Z' {
        symbol as int - 'A' as int
    } else if 'a' <= symbol <= 'z' {
        symbol as int - 'a' as int + 26
    } else if '0' <= symbol <= '9' {
        symbol as int - '0' as int + 52
    } else if symbol == '+' {
        62
    } else {
        63
    }
}

proof fn lemma_bits(n: int)
    requires
        0 <= n < 64,
    ensures
        bits(symbol(n)) == n,
{
}

/// A text carries its bytes six bits a symbol: every byte is found again in the symbols that
/// stand at its place.
pub proof fn law_a_text_carries_every_byte(bytes: Seq<u8>, i: int)
    requires
        0 <= i < bytes.len(),
    ensures
        ({
            let text = base64_text(bytes);
            let four = i / 3 * 4;
            bytes[i] == if i % 3 == 0 {
                bits(text[four]) * 4 + bits(text[four + 1]) / 16
            } else if i % 3 == 1 {
                bits(text[four + 1]) % 16 * 16 + bits(text[four + 2]) / 4
            } else {
                bits(text[four + 2]) % 4 * 64 + bits(text[four + 3])
            }
        }),
    decreases bytes.len(),
{
    let text = base64_text(bytes);
    if i >= 3 {
        let rest = bytes.skip(3);
        law_a_text_carries_every_byte(rest, i - 3);
        law_a_text_comes_in_fours(rest);
        assert((i - 3) / 3 * 4 == i / 3 * 4 - 4);
        assert forall|k: int| 0 <= k < base64_text(rest).len() implies #[trigger] text[k + 4]
            == base64_text(rest)[k] by {
        }
        let four = i / 3 * 4;
        assert(rest[i - 3] == bytes[i]);
        assert(text[four] == base64_text(rest)[four - 4]);
        assert(text[four + 1] == base64_text(rest)[four - 3]);
        assert(text[four + 2] == base64_text(rest)[four - 2]);
        assert(text[four + 3] == base64_text(rest)[four - 1]);
    } else {
        let a = bytes[0] as int;
        lemma_bits(a / 4);
        if bytes.len() == 1 {
            lemma_bits(a % 4 * 16);
        } else {
            let b = bytes[1] as int;
            lemma_bits(a % 4 * 16 + b / 16);
            if bytes.len() == 2 {
                lemma_bits(b % 16 * 4);
            } else {
                let c = bytes[2] as int;
                lemma_bits(b % 16 * 4 + c / 64);
                lemma_bits(c % 64);
            }
        }
    }
}

/// A text carries bytes exactly where it is the one that is written for them.
pub proof fn law_a_text_carries_what_it_was_written_for(text: Seq<u8>, bytes: Seq<u8>)
    ensures
        carries(text, bytes) <==> text == vstd::utf8::encode_utf8(base64_text(bytes)),
        base64_decoded(text) matches Ok(read) ==> text == vstd::utf8::encode_utf8(base64_text(read)),
        base64_decoded(text) is Err ==> text != vstd::utf8::encode_utf8(base64_text(bytes)),
        base64_decoded(text) matches Err(complaint) ==> complaint == base64_complaint(text),
        base64_decoded(vstd::utf8::encode_utf8(base64_text(bytes))) == Result::<
            Seq<u8>,
            Seq<char>,
        >::Ok(bytes),
{
    law_a_text_is_read_as_what_it_carries(vstd::utf8::encode_utf8(base64_text(bytes)), bytes);
    law_a_text_is_read_as_what_it_carries(text, bytes);
    if base64_decoded(text) is Ok {
        law_a_text_is_read_as_what_it_carries(text, base64_decoded(text)->Ok_0);
    }
}

/// Whether a character is a symbol of the standard alphabet.
pub open spec fn in_alphabet(c: char) -> bool {
    'A' <= c <= 'Z' || 'a' <= c <= 'z' || '0' <= c <= '9' || c == '+' || c == '/'
}

/// A text is made of symbols of the standard alphabet, but for the padding that tells how many
/// bytes the last four of them lack; the bits that no byte fills are zeros.
pub proof fn law_a_text_is_filled_up_with_padding(bytes: Seq<u8>, i: int)
    requires
        0 <= i < base64_text(bytes).len(),
    ensures
        ({
            let text = base64_text(bytes);
            let lacking = if bytes.len() % 3 == 0 {
                0
            } else {
                3 - bytes.len() % 3
            };
            &&& i < text.len() - lacking ==> in_alphabet(text[i])
            &&& i >= text.len() - lacking ==> text[i] == '='
            &&& lacking == 2 ==> bits(text[text.len() - 3]) % 16 == 0
            &&& lacking == 1 ==> bits(text[text.len() - 2]) % 4 == 0
        }),
    decreases bytes.len(),
{
    let text = base64_text(bytes);
    law_a_text_comes_in_fours(bytes);
    if bytes.len() > 3 {
        let rest = bytes.skip(3);
        law_a_text_comes_in_fours(rest);
        assert forall|k: int| 0 <= k < base64_text(rest).len() implies #[trigger] text[k + 4]
            == base64_text(rest)[k] by {
        }
        law_a_text_is_filled_up_with_padding(rest, if i >= 4 { i - 4 } else { 0 });
        let len = base64_text(rest).len() as int;
        assert(text[len + 1] == base64_text(rest)[len - 3]);
        assert(text[len + 2] == base64_text(rest)[len - 2]);
        if i >= 4 {
            assert(text[i] == base64_text(rest)[i - 4]);
        }
    } else if bytes.len() == 3 {
        assert(base64_text(bytes.skip(3)) =~= Seq::empty());
    } else if bytes.len() == 1 {
        lemma_bits(bytes[0] as int % 4 * 16);
    } else if bytes.len() == 2 {
        lemma_bits(bytes[1] as int % 16 * 4);
    }
}

} // verus!
