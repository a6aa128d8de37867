use vstd::prelude::*;

verus! {

use vstd::utf8::encode_utf8;

// The service's one serialization duty: turning a message into the JSON
// object `{"content":"..."}`, byte for byte as a standard JSON serializer
// writes it. A string is emitted as its UTF-8 bytes, with `"` and `\`
// escaped, the control characters backspace, tab, line feed, form feed and
// carriage return written as two-character escapes, and every other control
// character below 0x20 written as `\u00XX` with lowercase hex digits.

/// The byte of a lowercase hexadecimal digit.
pub open spec fn hex_digit(n: u8) -> u8 {
    if n < 10 {
        (0x30 + n) as u8
    } else {
        (0x57 + n) as u8
    }
}

/// What a JSON string encoder emits for one byte of the string's UTF-8 form.
pub open spec fn escape_byte(b: u8) -> Seq<u8> {
    if b == 0x22 {
        seq![0x5cu8, 0x22u8]
    } else if b == 0x5c {
        seq![0x5cu8, 0x5cu8]
    } else if b == 0x08 {
        seq![0x5cu8, 0x62u8]
    } else if b == 0x09 {
        seq![0x5cu8, 0x74u8]
    } else if b == 0x0a {
        seq![0x5cu8, 0x6eu8]
    } else if b == 0x0c {
        seq![0x5cu8, 0x66u8]
    } else if b == 0x0d {
        seq![0x5cu8, 0x72u8]
    } else if b < 0x20 {
        seq![0x5cu8, 0x75u8, 0x30u8, 0x30u8, hex_digit(b / 16), hex_digit(b % 16)]
    } else {
        seq![b]
    }
}

/// True of a byte the encoder passes through untouched.
pub open spec fn is_plain_byte(b: u8) -> bool {
    b != 0x22 && b != 0x5c && b >= 0x20
}

/// The escaped form of a whole byte string.
pub open spec fn escape_bytes(s: Seq<u8>) -> Seq<u8>
    decreases s.len(),
{
    if s.len() == 0 {
        Seq::empty()
    } else {
        escape_byte(s[0]) + escape_bytes(s.drop_first())
    }
}

/// The bytes that open the serialized message object, up to and including
/// the opening quote of the string value.
pub open spec fn body_prefix() -> Seq<u8> {
    encode_utf8("{\"content\":\""@)
}

/// The bytes that close the serialized message object.
pub open spec fn body_suffix() -> Seq<u8> {
    encode_utf8("\"}"@)
}

/// The full JSON body for a message whose `content` field holds `content`.
pub open spec fn body_bytes_of(content: Seq<char>) -> Seq<u8> {
    body_prefix() + escape_bytes(encode_utf8(content)) + body_suffix()
}

/// A byte string with nothing to escape serializes to itself.
pub proof fn lemma_escape_bytes_plain(s: Seq<u8>)
    requires
        forall|i: int| 0 <= i < s.len() ==> is_plain_byte(#[trigger] s[i]),
    ensures
        escape_bytes(s) == s,
    decreases s.len(),
{
    if s.len() == 0 {
        assert(escape_bytes(s) =~= s);
    } else {
        lemma_escape_bytes_plain(s.drop_first());
        assert(escape_byte(s[0]) =~= seq![s[0]]);
        assert(escape_bytes(s) =~= s);
    }
}

/// Escaping a byte string one byte at a time, left to right, builds the same
/// sequence as escaping it whole.
proof fn lemma_escape_bytes_push(s: Seq<u8>, b: u8)
    ensures
        escape_bytes(s.push(b)) == escape_bytes(s) + escape_byte(b),
    decreases s.len(),
{
    if s.len() == 0 {
        let t = s.push(b);
        assert(t[0] == b);
        assert(t.drop_first() =~= Seq::<u8>::empty());
        assert(escape_bytes(t.drop_first()) == Seq::<u8>::empty());
        assert(escape_bytes(t) =~= escape_byte(b));
        assert(escape_bytes(s) == Seq::<u8>::empty());
        assert(escape_bytes(s.push(b)) =~= escape_bytes(s) + escape_byte(b));
    } else {
        assert(s.push(b).drop_first() =~= s.drop_first().push(b));
        lemma_escape_bytes_push(s.drop_first(), b);
        assert(escape_bytes(s.push(b)) =~= escape_bytes(s) + escape_byte(b));
    }
}

/// Appends a byte slice to a buffer.
fn append_bytes(out: &mut Vec<u8>, s: &[u8])
    ensures
        final(out)@ == old(out)@ + s@,
{
    let n = s.len();
    let mut i: usize = 0;
    while i < n
        invariant
            n == s@.len(),
            i <= n,
            out@ == old(out)@ + s@.take(i as int),
        decreases n - i,
    {
        out.push(s[i]);
        assert(s@.take(i + 1 as int) =~= s@.take(i as int).push(s@[i as int]));
        assert(out@ =~= old(out)@ + s@.take(i + 1 as int));
        i = i + 1;
    }
    assert(s@.take(n as int) =~= s@);
}

/// Appends the escape sequence for one byte of a string's UTF-8 form.
fn push_escaped(out: &mut Vec<u8>, b: u8)
    ensures
        final(out)@ == old(out)@ + escape_byte(b),
{
    if b == 0x22 {
        out.push(0x5c);
        out.push(0x22);
    } else if b == 0x5c {
        out.push(0x5c);
        out.push(0x5c);
    } else if b == 0x08 {
        out.push(0x5c);
        out.push(0x62);
    } else if b == 0x09 {
        out.push(0x5c);
        out.push(0x74);
    } else if b == 0x0a {
        out.push(0x5c);
        out.push(0x6e);
    } else if b == 0x0c {
        out.push(0x5c);
        out.push(0x66);
    } else if b == 0x0d {
        out.push(0x5c);
        out.push(0x72);
    } else if b < 0x20 {
        out.push(0x5c);
        out.push(0x75);
        out.push(0x30);
        out.push(0x30);
        out.push(if b / 16 < 10 { 0x30 + b / 16 } else { 0x57 + b / 16 });
        out.push(if b % 16 < 10 { 0x30 + b % 16 } else { 0x57 + b % 16 });
    } else {
        out.push(b);
    }
    assert(final(out)@ =~= old(out)@ + escape_byte(b));
}

/// Serializes a message body: the JSON object with the single `content`
/// field holding `content`, exactly as a standard JSON serializer writes it.
pub fn json_body(content: &str) -> (r: Vec<u8>)
    ensures
        r@ == body_bytes_of(content@),
{
    let mut out: Vec<u8> = Vec::new();
    append_bytes(&mut out, "{\"content\":\"".as_bytes());
    assert(out@ =~= body_prefix());
    let bs = content.as_bytes();
    let n = bs.len();
    let mut i: usize = 0;
    while i < n
        invariant
            n == bs@.len(),
            i <= n,
            bs@ == encode_utf8(content@),
            out@ == body_prefix() + escape_bytes(bs@.take(i as int)),
        decreases n - i,
    {
        push_escaped(&mut out, bs[i]);
        proof {
            assert(bs@.take(i + 1 as int) =~= bs@.take(i as int).push(bs@[i as int]));
            lemma_escape_bytes_push(bs@.take(i as int), bs@[i as int]);
            assert(out@ =~= body_prefix() + escape_bytes(bs@.take(i + 1 as int)));
        }
        i = i + 1;
    }
    assert(bs@.take(n as int) =~= bs@);
    append_bytes(&mut out, "\"}".as_bytes());
    assert(out@ =~= body_bytes_of(content@));
    out
}

} // verus!
