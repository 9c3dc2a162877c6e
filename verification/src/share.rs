use vstd::prelude::*;
use vstd::utf8::encode_utf8;
use crate::text::{decimal, push_char, push_decimal};

verus! {

/// Where the game is published.
pub const GAME_URL: &'static str = "https://czmirror.github.io/Pulse/";

/// The bytes that a URL carries as they are: ASCII letters and digits and
/// `-`, `_`, `.`, `~`.
pub open spec fn is_unreserved(b: u8) -> bool {
    ||| 65 <= b <= 90
    ||| 97 <= b <= 122
    ||| 48 <= b <= 57
    ||| b == 45
    ||| b == 95
    ||| b == 46
    ||| b == 126
}

/// The upper-case hexadecimal digit of `d` in `0..16`.
pub open spec fn hex_upper(d: int) -> char {
    if d < 10 {
        ((48 + d) as u8) as char
    } else {
        ((55 + d) as u8) as char
    }
}

/// One byte of the input as it appears in the output: itself when
/// unreserved, else `%` and its two upper-case hexadecimal digits.
pub open spec fn encode_byte(b: u8) -> Seq<char> {
    if is_unreserved(b) {
        seq![b as char]
    } else {
        seq!['%', hex_upper(b as int / 16), hex_upper(b as int % 16)]
    }
}

/// The percent-encoding of a byte sequence.
pub open spec fn percent_encoded(bytes: Seq<u8>) -> Seq<char>
    decreases bytes.len(),
{
    if bytes.len() == 0 {
        Seq::empty()
    } else {
        percent_encoded(bytes.drop_last()) + encode_byte(bytes.last())
    }
}

/// The value of an upper-case hexadecimal digit.
pub open spec fn hex_value(c: char) -> int {
    if (c as int) <= 57 {
        c as int - 48
    } else {
        c as int - 55
    }
}

/// Percent-decoding, as a URL reader undoes the encoding.
pub open spec fn percent_decoded(s: Seq<char>) -> Seq<u8>
    decreases s.len(),
{
    if s.len() == 0 {
        Seq::empty()
    } else if s[0] == '%' && s.len() >= 3 {
        seq![(hex_value(s[1]) * 16 + hex_value(s[2])) as u8] + percent_decoded(
            s.subrange(3, s.len() as int),
        )
    } else {
        seq![s[0] as u8] + percent_decoded(s.subrange(1, s.len() as int))
    }
}

/// The text of the post that shares a result.
pub open spec fn tweet_text_spec(score: u32, best_combo: u32) -> Seq<char> {
    "🎵 PULSE - Score: "@ + decimal(score as nat) + " / Max Combo: "@ + decimal(
        best_combo as nat,
    ) + "\nシンプルなリズムゲームに挑戦！\n"@ + GAME_URL@ + "\n#PULSE #ゲーム制作 #bevy"@
}

/// The address that opens the post composer with that text.
pub open spec fn tweet_url_spec(score: u32, best_combo: u32) -> Seq<char> {
    "https://twitter.com/intent/tweet?text="@ + percent_encoded(
        encode_utf8(tweet_text_spec(score, best_combo)),
    )
}

fn hex_digit(d: u8) -> (c: char)
    requires
        d < 16,
    ensures
        c == hex_upper(d as int),
{
    if d < 10 {
        (48 + d) as char
    } else {
        (55 + d) as char
    }
}

fn unreserved(b: u8) -> (r: bool)
    ensures
        r == is_unreserved(b),
{
    (65 <= b && b <= 90) || (97 <= b && b <= 122) || (48 <= b && b <= 57) || b == 45 || b == 95
        || b == 46 || b == 126
}

/// Percent-encodes a byte sequence for a URL query.
pub fn percent_encode_bytes(bytes: &[u8]) -> (out: String)
    ensures
        out@ == percent_encoded(bytes@),
{
    let mut out = String::new();
    let n = bytes.len();
    let mut i: usize = 0;
    while i < n
        invariant
            n == bytes@.len(),
            i <= n,
            out@ == percent_encoded(bytes@.take(i as int)),
        decreases n - i,
    {
        let b = bytes[i];
        assert(bytes@.take(i + 1).drop_last() =~= bytes@.take(i as int));
        if unreserved(b) {
            push_char(&mut out, b as char);
        } else {
            push_char(&mut out, '%');
            push_char(&mut out, hex_digit(b / 16));
            push_char(&mut out, hex_digit(b % 16));
        }
        assert(out@ =~= percent_encoded(bytes@.take(i + 1)));
        i = i + 1;
    }
    assert(bytes@.take(n as int) =~= bytes@);
    out
}

/// Percent-encodes the UTF-8 bytes of `s`.
pub fn percent_encode(s: &str) -> (out: String)
    ensures
        out@ == percent_encoded(encode_utf8(s@)),
{
    percent_encode_bytes(s.as_bytes())
}

/// The text of the post that shares a score and a best combo.
pub fn tweet_text(score: u32, best_combo: u32) -> (t: String)
    ensures
        t@ == tweet_text_spec(score, best_combo),
{
    let mut t = String::from_str("🎵 PULSE - Score: ");
    push_decimal(&mut t, score);
    t.append(" / Max Combo: ");
    push_decimal(&mut t, best_combo);
    t.append("\nシンプルなリズムゲームに挑戦！\n");
    t.append(GAME_URL);
    t.append("\n#PULSE #ゲーム制作 #bevy");
    t
}

/// The address of the post composer, filled with the share text.
pub fn tweet_url(score: u32, best_combo: u32) -> (u: String)
    ensures
        u@ == tweet_url_spec(score, best_combo),
{
    let text = tweet_text(score, best_combo);
    let mut u = String::from_str("https://twitter.com/intent/tweet?text=");
    let encoded = percent_encode(text.as_str());
    u.append(encoded.as_str());
    u
}


/// Encoding a byte in front of others puts its encoding in front.
pub proof fn lemma_encoded_cons(b: u8, rest: Seq<u8>)
    ensures
        percent_encoded(seq![b] + rest) == encode_byte(b) + percent_encoded(rest),
    decreases rest.len(),
{
    if rest.len() == 0 {
        assert(seq![b] + rest =~= seq![b]);
        assert(seq![b].drop_last() =~= Seq::<u8>::empty());
        assert(percent_encoded(Seq::<u8>::empty()) =~= Seq::<char>::empty());
        assert(percent_encoded(seq![b]) =~= encode_byte(b));
        assert(encode_byte(b) + percent_encoded(rest) =~= encode_byte(b));
    } else {
        lemma_encoded_cons(b, rest.drop_last());
        assert((seq![b] + rest).drop_last() =~= seq![b] + rest.drop_last());
        assert((seq![b] + rest).last() == rest.last());
        assert(percent_encoded(rest) == percent_encoded(rest.drop_last()) + encode_byte(
            rest.last(),
        ));
        assert(percent_encoded(seq![b] + rest) =~= encode_byte(b) + percent_encoded(
            rest.drop_last(),
        ) + encode_byte(rest.last()));
        assert(percent_encoded(seq![b] + rest) =~= encode_byte(b) + percent_encoded(rest));
    }
}

proof fn lemma_decode_byte(b: u8, tail: Seq<char>)
    ensures
        percent_decoded(encode_byte(b) + tail) == seq![b] + percent_decoded(tail),
{
    let s = encode_byte(b) + tail;
    if is_unreserved(b) {
        assert(s[0] == b as char);
        assert(s.subrange(1, s.len() as int) =~= tail);
    } else {
        assert(s[0] == '%');
        assert(s.subrange(3, s.len() as int) =~= tail);
        let hi = b as int / 16;
        let lo = b as int % 16;
        assert(hex_value(hex_upper(hi)) == hi);
        assert(hex_value(hex_upper(lo)) == lo);
        assert(hi * 16 + lo == b as int);
    }
}

/// Decoding the percent-encoding of any bytes gives those bytes back.
pub proof fn lemma_percent_roundtrip(bytes: Seq<u8>)
    ensures
        percent_decoded(percent_encoded(bytes)) == bytes,
    decreases bytes.len(),
{
    if bytes.len() > 0 {
        let rest = bytes.subrange(1, bytes.len() as int);
        assert(bytes =~= seq![bytes[0]] + rest);
        lemma_encoded_cons(bytes[0], rest);
        lemma_decode_byte(bytes[0], percent_encoded(rest));
        lemma_percent_roundtrip(rest);
    }
}

/// The characters that may stand in an encoded query: the unreserved ones
/// and `%`.
pub open spec fn is_url_safe(c: char) -> bool {
    (c as int) < 128 && (is_unreserved(c as u8) || c == '%')
}

/// How many bytes of `bytes` must be escaped.
pub open spec fn reserved_count(bytes: Seq<u8>) -> nat
    decreases bytes.len(),
{
    if bytes.len() == 0 {
        0
    } else {
        reserved_count(bytes.drop_last()) + if is_unreserved(bytes.last()) {
            0nat
        } else {
            1nat
        }
    }
}

/// The encoding holds nothing but URL-safe characters, and each byte takes
/// one character when unreserved and three otherwise.
pub proof fn lemma_percent_encoded_shape(bytes: Seq<u8>)
    ensures
        percent_encoded(bytes).len() == bytes.len() + 2 * reserved_count(bytes),
        forall|i: int|
            0 <= i < percent_encoded(bytes).len() ==> is_url_safe(
                #[trigger] percent_encoded(bytes)[i],
            ),
        bytes.len() <= percent_encoded(bytes).len() <= 3 * bytes.len(),
        (forall|i: int| 0 <= i < bytes.len() ==> is_unreserved(#[trigger] bytes[i]))
            ==> percent_encoded(bytes).len() == bytes.len(),
    decreases bytes.len(),
{
    if bytes.len() > 0 {
        let init = bytes.drop_last();
        lemma_percent_encoded_shape(init);
        let b = bytes.last();
        let e = encode_byte(b);
        assert forall|i: int| 0 <= i < e.len() implies is_url_safe(#[trigger] e[i]) by {
            if !is_unreserved(b) && i > 0 {
                let d = if i == 1 {
                    b as int / 16
                } else {
                    b as int % 16
                };
                assert(e[i] == hex_upper(d));
            }
        }
        let p = percent_encoded(init);
        assert(percent_encoded(bytes) =~= p + e);
        assert forall|i: int| 0 <= i < percent_encoded(bytes).len() implies is_url_safe(
            #[trigger] percent_encoded(bytes)[i],
        ) by {
            if i < p.len() {
                assert(percent_encoded(bytes)[i] == p[i]);
            } else {
                assert(percent_encoded(bytes)[i] == e[i - p.len()]);
            }
        }
        if forall|i: int| 0 <= i < bytes.len() ==> is_unreserved(#[trigger] bytes[i]) {
            assert forall|i: int| 0 <= i < init.len() implies is_unreserved(#[trigger] init[i]) by {
                assert(init[i] == bytes[i]);
            }
            assert(is_unreserved(bytes[bytes.len() - 1]));
        }
    }
}

} // verus!
