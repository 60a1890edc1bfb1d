//! Canonical commitment codec: the byte encoding hashed by the proof-of-work
//! engine, the decimal rendering of nonces, the hex rendering of digests, and
//! the leading-zero difficulty check.

use vstd::prelude::*;
use vstd::string::*;
use vstd::utf8::encode_utf8;
use sha2::Digest;

verus! {

/// The character for a single decimal digit.
pub open spec fn digit_char(d: nat) -> char {
    if d == 0 {
        '0'
    } else if d == 1 {
        '1'
    } else if d == 2 {
        '2'
    } else if d == 3 {
        '3'
    } else if d == 4 {
        '4'
    } else if d == 5 {
        '5'
    } else if d == 6 {
        '6'
    } else if d == 7 {
        '7'
    } else if d == 8 {
        '8'
    } else {
        '9'
    }
}

/// The decimal digit characters of `n`, most significant first, with no
/// leading zeros (`0` itself is rendered as `"0"`).
pub open spec fn dec_chars(n: nat) -> Seq<char>
    decreases n,
{
    if n < 10 {
        seq![digit_char(n)]
    } else {
        dec_chars(n / 10).push(digit_char(n % 10))
    }
}

fn digit_str(d: u64) -> (r: &'static str)
    requires
        d < 10,
    ensures
        r@ == seq![digit_char(d as nat)],
{
    let r: &'static str = if d == 0 {
        "0"
    } else if d == 1 {
        "1"
    } else if d == 2 {
        "2"
    } else if d == 3 {
        "3"
    } else if d == 4 {
        "4"
    } else if d == 5 {
        "5"
    } else if d == 6 {
        "6"
    } else if d == 7 {
        "7"
    } else if d == 8 {
        "8"
    } else {
        "9"
    };
    proof {
        reveal_strlit("0");
        reveal_strlit("1");
        reveal_strlit("2");
        reveal_strlit("3");
        reveal_strlit("4");
        reveal_strlit("5");
        reveal_strlit("6");
        reveal_strlit("7");
        reveal_strlit("8");
        reveal_strlit("9");
        assert(r@ =~= seq![digit_char(d as nat)]);
    }
    r
}

/// Renders `n` in decimal, exactly as `dec_chars` describes.
pub fn u64_to_dec_string(n: u64) -> (r: String)
    ensures
        r@ == dec_chars(n as nat),
    decreases n,
{
    if n < 10 {
        String::from_str(digit_str(n))
    } else {
        let mut s = u64_to_dec_string(n / 10);
        s.append(digit_str(n % 10));
        proof {
            assert(s@ =~= dec_chars(n as nat));
        }
        s
    }
}

/// The canonical hash input: the UTF-8 bytes of timestamp, message and sender
/// followed by the decimal rendering of the nonce, concatenated with no
/// separators.
pub open spec fn pow_input(
    timestamp: Seq<char>,
    message: Seq<char>,
    sender: Seq<char>,
    nonce: u64,
) -> Seq<u8> {
    encode_utf8(timestamp) + encode_utf8(message) + encode_utf8(sender) + encode_utf8(
        dec_chars(nonce as nat),
    )
}

/// Builds the canonical hash input bytes for one candidate nonce.
pub fn encode(timestamp: &str, message: &str, sender: &str, nonce: u64) -> (r: Vec<u8>)
    ensures
        r@ == pow_input(timestamp@, message@, sender@, nonce),
{
    let mut out = timestamp.as_bytes_vec();
    let mut rest = message.as_bytes_vec();
    out.append(&mut rest);
    let mut rest = sender.as_bytes_vec();
    out.append(&mut rest);
    let nonce_str = u64_to_dec_string(nonce);
    let mut rest = nonce_str.as_str().as_bytes_vec();
    out.append(&mut rest);
    proof {
        assert(out@ =~= pow_input(timestamp@, message@, sender@, nonce));
    }
    out
}

/// The SHA-256 digest of a byte sequence. Its value is fixed by the SHA-256
/// algorithm and depends on the input bytes alone; it is left unspecified
/// here and is computed only through `sha256`.
pub uninterp spec fn sha256_of(input: Seq<u8>) -> Seq<u8>;

/// Relies on sha2::Sha256 (through digest::Digest::digest): the SHA-256
/// digest of the input, a function of the input bytes alone, 32 bytes long.
#[verifier::external_body]
fn sha256(input: &Vec<u8>) -> (r: Vec<u8>)
    ensures
        r@ == sha256_of(input@),
        r@.len() == 32,
{
    sha2::Sha256::digest(input.as_slice()).to_vec()
}

/// The lowercase hex character for one nibble.
pub open spec fn hex_digit_char(d: u8) -> char {
    if d < 10 {
        digit_char(d as nat)
    } else if d == 10 {
        'a'
    } else if d == 11 {
        'b'
    } else if d == 12 {
        'c'
    } else if d == 13 {
        'd'
    } else if d == 14 {
        'e'
    } else {
        'f'
    }
}

/// Lowercase hex rendering: two characters per byte, high nibble first.
pub open spec fn hex_of(bytes: Seq<u8>) -> Seq<char> {
    Seq::new(
        bytes.len() * 2,
        |i: int|
            if i % 2 == 0 {
                hex_digit_char(bytes[i / 2] >> 4)
            } else {
                hex_digit_char(bytes[i / 2] & 0x0f)
            },
    )
}

/// Relies on hex::encode: two lowercase hex digits per input byte, high
/// nibble first, drawn from the alphabet `0123456789abcdef`.
#[verifier::external_body]
fn hex_lower(bytes: &Vec<u8>) -> (r: String)
    ensures
        r@ == hex_of(bytes@),
{
    hex::encode(bytes)
}

/// The hex-encoded SHA-256 digest of the canonical encoding of a message and
/// a candidate nonce: the quantity the proof-of-work search and the verifier
/// must agree on.
pub open spec fn pow_digest(
    timestamp: Seq<char>,
    message: Seq<char>,
    sender: Seq<char>,
    nonce: u64,
) -> Seq<char> {
    hex_of(sha256_of(pow_input(timestamp, message, sender, nonce)))
}

/// Computes the hex-encoded SHA-256 digest of the canonical encoding.
pub fn digest_hex(timestamp: &str, message: &str, sender: &str, nonce: u64) -> (r: String)
    ensures
        r@ == pow_digest(timestamp@, message@, sender@, nonce),
        r@.len() == 64,
{
    let bytes = encode(timestamp, message, sender, nonce);
    let digest = sha256(&bytes);
    hex_lower(&digest)
}

/// Whether the first `count` characters of `s` are all `'0'`. Indices past
/// the end of `s` are ignored, so a `count` beyond the length only requires
/// every character of `s` to be `'0'`.
pub open spec fn leading_zeros(s: Seq<char>, count: nat) -> bool {
    forall|i: int| 0 <= i < count && i < s.len() ==> s[i] == '0'
}

/// Checks the difficulty target: the first `count` characters of `hash`
/// (or all of them, if `hash` is shorter) must be `'0'`.
pub fn zeros_prefix(hash: &str, count: u8) -> (r: bool)
    ensures
        r == leading_zeros(hash@, count as nat),
{
    let len = hash.unicode_len();
    let end: usize = if (count as usize) < len {
        count as usize
    } else {
        len
    };
    let mut i: usize = 0;
    while i < end
        invariant
            i <= end,
            end <= len,
            len == hash@.len(),
            end == if (count as nat) < len { count as nat } else { len as nat },
            forall|j: int| 0 <= j < i ==> hash@[j] == '0',
        decreases end - i,
    {
        if hash.get_char(i) != '0' {
            assert(!leading_zeros(hash@, count as nat));
            return false;
        }
        i += 1;
    }
    true
}

proof fn lemma_dec_chars_len(n: nat)
    ensures
        dec_chars(n).len() >= 1,
        (n < 10) == (dec_chars(n).len() == 1),
    decreases n,
{
    if n >= 10 {
        lemma_dec_chars_len(n / 10);
    }
}

/// Law: the decimal rendering is injective. Two nonces with the same decimal
/// digit sequence are the same nonce.
pub proof fn lemma_dec_chars_injective(a: nat, b: nat)
    requires
        dec_chars(a) == dec_chars(b),
    ensures
        a == b,
    decreases a,
{
    lemma_dec_chars_len(a);
    lemma_dec_chars_len(b);
    if a < 10 && b < 10 {
        assert(dec_chars(a)[0] == digit_char(a));
        assert(dec_chars(b)[0] == digit_char(b));
        assert(a == b);
    } else if a >= 10 && b >= 10 {
        assert(dec_chars(a).drop_last() =~= dec_chars(a / 10));
        assert(dec_chars(b).drop_last() =~= dec_chars(b / 10));
        lemma_dec_chars_injective(a / 10, b / 10);
        assert(dec_chars(a).last() == digit_char(a % 10));
        assert(dec_chars(b).last() == digit_char(b % 10));
        assert(a % 10 == b % 10);
        vstd::arithmetic::div_mod::lemma_fundamental_div_mod(a as int, 10);
        vstd::arithmetic::div_mod::lemma_fundamental_div_mod(b as int, 10);
    }
}

proof fn lemma_concat_cancel_left(a: Seq<u8>, b: Seq<u8>, c: Seq<u8>)
    requires
        a + b == a + c,
    ensures
        b == c,
{
    assert((a + b).len() == a.len() + b.len());
    assert((a + c).len() == a.len() + c.len());
    assert(b.len() == c.len());
    assert forall|i: int| 0 <= i < b.len() implies b[i] == c[i] by {
        assert((a + b)[a.len() + i] == b[i]);
        assert((a + c)[a.len() + i] == c[i]);
    }
    assert(b =~= c);
}

/// Law: for a fixed message, the canonical encoding is injective in the
/// nonce. Two nonces that encode to the same bytes are the same nonce, so
/// the proof-of-work search never conflates two candidates. (Across
/// different messages the encoding concatenates fields with no separators,
/// so distinct field splits can in principle coincide; digest uniqueness
/// over whole messages is probabilistic, not structural.)
pub proof fn lemma_pow_input_nonce_injective(
    timestamp: Seq<char>,
    message: Seq<char>,
    sender: Seq<char>,
    n1: u64,
    n2: u64,
)
    requires
        pow_input(timestamp, message, sender, n1) == pow_input(timestamp, message, sender, n2),
    ensures
        n1 == n2,
{
    let prefix = encode_utf8(timestamp) + encode_utf8(message) + encode_utf8(sender);
    assert(pow_input(timestamp, message, sender, n1) =~= prefix + encode_utf8(
        dec_chars(n1 as nat),
    ));
    assert(pow_input(timestamp, message, sender, n2) =~= prefix + encode_utf8(
        dec_chars(n2 as nat),
    ));
    lemma_concat_cancel_left(
        prefix,
        encode_utf8(dec_chars(n1 as nat)),
        encode_utf8(dec_chars(n2 as nat)),
    );
    vstd::utf8::encode_utf8_decode_utf8(dec_chars(n1 as nat));
    vstd::utf8::encode_utf8_decode_utf8(dec_chars(n2 as nat));
    lemma_dec_chars_injective(n1 as nat, n2 as nat);
}

} // verus!
