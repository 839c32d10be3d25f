//! Text: comparing it, writing numbers into it, and passing it to and from the
//! engine, which reads and writes bytes that end at the first zero byte.

use vstd::prelude::*;
use vstd::utf8::*;

verus! {

/// The character that stands for the digit `d`.
pub open spec fn digit_char(d: int) -> char {
    if d == 0 {
        '0'
    } else if d == 1 {
        '1'
    } else if d == 2 {
        '2'
    } else if d == 3 {
        '3'
    } else if d == 4 {
        '4'
    } else if d == 5 {
        '5'
    } else if d == 6 {
        '6'
    } else if d == 7 {
        '7'
    } else if d == 8 {
        '8'
    } else {
        '9'
    }
}

/// The decimal digits of `n`, the most significant first, with no leading zero
/// but for `0` itself.
pub open spec fn decimal_nat(n: nat) -> Seq<char>
    decreases n,
{
    if n < 10 {
        seq![digit_char(n as int)]
    } else {
        decimal_nat(n / 10).push(digit_char((n % 10) as int))
    }
}

/// The decimal form of `n`: a minus sign where `n` is negative, then the
/// digits of its magnitude.
pub open spec fn decimal(n: int) -> Seq<char> {
    if n < 0 {
        seq!['-'] + decimal_nat((-n) as nat)
    } else {
        decimal_nat(n as nat)
    }
}

/// Returns the text of the one digit `d`.
fn digit_text(d: u64) -> (text: &'static str)
    requires
        d < 10,
    ensures
        text@ == seq![digit_char(d as int)],
{
    proof {
        reveal_strlit("0");
        reveal_strlit("1");
        reveal_strlit("2");
        reveal_strlit("3");
        reveal_strlit("4");
        reveal_strlit("5");
        reveal_strlit("6");
        reveal_strlit("7");
        reveal_strlit("8");
        reveal_strlit("9");
    }
    let text = match d {
        0 => "0",
        1 => "1",
        2 => "2",
        3 => "3",
        4 => "4",
        5 => "5",
        6 => "6",
        7 => "7",
        8 => "8",
        _ => "9",
    };
    assert(text@ =~= seq![digit_char(d as int)]);
    text
}

/// Appends the decimal digits of `n` to `out`.
pub fn append_nat(out: &mut String, n: u64)
    ensures
        final(out)@ == old(out)@ + decimal_nat(n as nat),
    decreases n,
{
    if n >= 10 {
        append_nat(out, n / 10);
    }
    out.append(digit_text(n % 10));
    proof {
        if n >= 10 {
            assert(out@ =~= old(out)@ + decimal_nat((n / 10) as nat).push(
                digit_char((n % 10) as int),
            ));
        } else {
            assert(out@ =~= old(out)@ + seq![digit_char(n as int)]);
        }
    }
}

/// Appends the decimal form of `n` to `out`.
pub fn append_int(out: &mut String, n: i64)
    ensures
        final(out)@ == old(out)@ + decimal(n as int),
{
    if n < 0 {
        proof {
            reveal_strlit("-");
        }
        out.append("-");
        assert(out@ =~= old(out)@ + seq!['-']);
        let magnitude: u64 = (-(n + 1)) as u64 + 1;
        append_nat(out, magnitude);
        assert(out@ =~= old(out)@ + (seq!['-'] + decimal_nat((-n) as nat)));
    } else {
        append_nat(out, n as u64);
    }
}

/// Returns the decimal form of `n`.
pub fn decimal_text(n: i64) -> (text: String)
    ensures
        text@ == decimal(n as int),
{
    let mut text = String::new();
    append_int(&mut text, n);
    assert(text@ =~= decimal(n as int));
    text
}

/// Tells whether two texts are the same.
pub fn str_eq(a: &str, b: &str) -> (same: bool)
    ensures
        same == (a@ == b@),
{
    let x = a.as_bytes();
    let y = b.as_bytes();
    if x.len() != y.len() {
        return false;
    }
    let mut i: usize = 0;
    while i < x.len()
        invariant
            x@.len() == y@.len(),
            i <= x@.len(),
            x@ == encode_utf8(a@),
            y@ == encode_utf8(b@),
            forall|j: int| 0 <= j < i ==> x@[j] == y@[j],
        decreases x@.len() - i,
    {
        if x[i] != y[i] {
            return false;
        }
        i += 1;
    }
    proof {
        assert(x@ =~= y@);
        encode_utf8_decode_utf8(a@);
        encode_utf8_decode_utf8(b@);
    }
    true
}

/// The place of the first byte `byte` of `bytes`, or the length of `bytes`
/// where it holds none.
pub open spec fn first_of(bytes: Seq<u8>, byte: u8) -> int
    decreases bytes.len(),
{
    if bytes.len() == 0 || bytes[0] == byte {
        0
    } else {
        1 + first_of(bytes.skip(1), byte)
    }
}

/// `first_of` is the least place that holds the byte.
pub proof fn lemma_first_of(bytes: Seq<u8>, byte: u8)
    ensures
        0 <= first_of(bytes, byte) <= bytes.len(),
        forall|j: int| 0 <= j < first_of(bytes, byte) ==> bytes[j] != byte,
        first_of(bytes, byte) < bytes.len() ==> bytes[first_of(bytes, byte)] == byte,
    decreases bytes.len(),
{
    if bytes.len() == 0 || bytes[0] == byte {
    } else {
        let rest = bytes.skip(1);
        lemma_first_of(rest, byte);
        assert forall|j: int| 0 <= j < first_of(bytes, byte) implies bytes[j] != byte by {
            if j > 0 {
                assert(rest[j - 1] == bytes[j]);
            }
        }
        if first_of(rest, byte) < rest.len() {
            assert(rest[first_of(rest, byte)] == bytes[first_of(bytes, byte)]);
        }
    }
}

/// A place `at` that holds the first byte `byte`, or the length where there
/// is none, is `first_of`.
pub proof fn lemma_first_of_is(bytes: Seq<u8>, byte: u8, at: int)
    requires
        0 <= at <= bytes.len(),
        forall|j: int| 0 <= j < at ==> bytes[j] != byte,
        at < bytes.len() ==> bytes[at] == byte,
    ensures
        first_of(bytes, byte) == at,
{
    lemma_first_of(bytes, byte);
    let f = first_of(bytes, byte);
    if f < at {
        assert(bytes[f] != byte);
    } else if at < f {
        assert(bytes[at] == byte);
    }
}

/// Returns the place of the first byte `byte` in `bytes` from the place
/// `from` on, counted from `from`, or the number of bytes from `from` on where
/// none of them is `byte`.
pub fn find_byte(bytes: &[u8], from: usize, byte: u8) -> (at: usize)
    requires
        from <= bytes@.len(),
    ensures
        at == first_of(bytes@.skip(from as int), byte),
        from + at <= bytes@.len(),
{
    let mut i: usize = from;
    while i < bytes.len() && bytes[i] != byte
        invariant
            from <= i <= bytes@.len(),
            forall|j: int| from <= j < i ==> bytes@[j] != byte,
        decreases bytes@.len() - i,
    {
        i += 1;
    }
    proof {
        lemma_first_of_is(bytes@.skip(from as int), byte, i - from);
    }
    i - from
}

/// The place of the first zero byte of `bytes`, or the length of `bytes` where
/// it holds none.
pub open spec fn first_nul(bytes: Seq<u8>) -> int {
    first_of(bytes, 0)
}

/// Returns the place of the first zero byte of `bytes`, or their number where
/// none of them is zero.
pub fn find_nul(bytes: &[u8]) -> (at: usize)
    ensures
        at == first_nul(bytes@),
        at <= bytes@.len(),
{
    assert(bytes@.skip(0) =~= bytes@);
    find_byte(bytes, 0, 0)
}

/// The bytes as which the engine reads `text`: the bytes of `text`, then a
/// zero byte to end them.
pub open spec fn c_bytes(text: Seq<char>) -> Seq<u8> {
    encode_utf8(text).push(0)
}

/// Whether the engine can be handed `text`: whether none of its bytes is zero,
/// so that the engine reads it to its end.
pub open spec fn c_safe(text: Seq<char>) -> bool {
    first_nul(encode_utf8(text)) == encode_utf8(text).len()
}

/// Makes of `text` the bytes to hand to the engine. Text that holds a zero
/// byte is refused, with the place of the first such byte.
pub fn c_string(text: &str) -> (made: Result<Vec<u8>, usize>)
    ensures
        match made {
            Ok(bytes) => c_safe(text@) && bytes@ == c_bytes(text@),
            Err(at) => !c_safe(text@) && at == first_nul(encode_utf8(text@)),
        },
{
    let bytes = text.as_bytes();
    let at = find_nul(bytes);
    if at < bytes.len() {
        return Err(at);
    }
    let mut made: Vec<u8> = Vec::new();
    let mut i: usize = 0;
    while i < bytes.len()
        invariant
            i <= bytes@.len(),
            made@ == bytes@.take(i as int),
        decreases bytes@.len() - i,
    {
        made.push(bytes[i]);
        i += 1;
        assert(made@ =~= bytes@.take(i as int));
    }
    assert(bytes@.take(i as int) =~= bytes@);
    made.push(0);
    Ok(made)
}

/// Reads bytes as UTF-8 text. This is `String::from_utf8` of the standard
/// library, which hands back the text that the bytes encode and refuses bytes
/// that are not valid UTF-8; both are stated here over the UTF-8 model.
#[verifier::external_body]
fn text_from_utf8(bytes: Vec<u8>) -> (text: Option<String>)
    ensures
        text is Some <==> valid_utf8(bytes@),
        text is Some ==> text->0@ == decode_utf8(bytes@),
{
    match String::from_utf8(bytes) {
        Ok(text) => Some(text),
        Err(_) => None,
    }
}

/// The bytes that the engine wrote into `buffer`: those before the first zero
/// byte.
pub open spec fn c_content(buffer: Seq<u8>) -> Seq<u8> {
    buffer.take(first_nul(buffer))
}

/// Reads the text that the engine wrote into `buffer`: the bytes before the
/// first zero byte, as UTF-8. Returns `None` where they are not valid UTF-8.
pub fn text_before_nul(buffer: &[u8]) -> (text: Option<String>)
    ensures
        text is Some <==> valid_utf8(c_content(buffer@)),
        text is Some ==> text->0@ == decode_utf8(c_content(buffer@)),
{
    let end = find_nul(buffer);
    let mut content: Vec<u8> = Vec::new();
    let mut i: usize = 0;
    while i < end
        invariant
            i <= end <= buffer@.len(),
            content@ == buffer@.take(i as int),
        decreases end - i,
    {
        content.push(buffer[i]);
        i += 1;
        assert(content@ =~= buffer@.take(i as int));
    }
    text_from_utf8(content)
}

} // verus!
