//! Short content fingerprints: the first twelve lowercase hex digits of the
//! SHA-256 digest of a file's UTF-8 bytes.
use vstd::prelude::*;
use sha2::Digest;
use vstd::utf8::encode_utf8;
use crate::text::string_of;
use crate::config_text::opt_view;

verus! {

/// The SHA-256 digest of a byte string, as `sha2` computes it.
pub uninterp spec fn sha256(data: Seq<u8>) -> Seq<u8>;

/// `sha2::Sha256::digest`: the 32-byte SHA-256 digest of the data.
#[verifier::external_body]
fn sha256_digest(data: &[u8]) -> (r: Vec<u8>)
    ensures
        r@ == sha256(data@),
        r@.len() == 32,
{
    sha2::Sha256::digest(data).to_vec()
}

/// The lowercase hex digit of a value below 16.
pub open spec fn hex_digit(v: u8) -> char {
    if v < 10 {
        (('0' as u32) + v) as char
    } else {
        (('a' as u32) + v - 10) as char
    }
}

/// Two lowercase hex digits per byte, high nibble first.
pub open spec fn hex_lower(data: Seq<u8>) -> Seq<char>
    decreases data.len(),
{
    if data.len() == 0 {
        seq![]
    } else {
        seq![hex_digit(data[0] / 16), hex_digit(data[0] % 16)] + hex_lower(data.drop_first())
    }
}

fn hex_digit_exec(v: u8) -> (c: char)
    requires
        v < 16,
    ensures
        c == hex_digit(v),
{
    let digits: [char; 16] = [
        '0',
        '1',
        '2',
        '3',
        '4',
        '5',
        '6',
        '7',
        '8',
        '9',
        'a',
        'b',
        'c',
        'd',
        'e',
        'f',
    ];
    let c = digits[v as usize];
    assert(c == hex_digit(v)) by {
        assert(digits@[v as int] == hex_digit(v));
    }
    c
}

proof fn lemma_hex_lower_take(data: Seq<u8>, i: int)
    requires
        0 <= i < data.len(),
    ensures
        hex_lower(data.take(i + 1)) == hex_lower(data.take(i)) + seq![
            hex_digit(data[i] / 16),
            hex_digit(data[i] % 16),
        ],
    decreases i,
{
    let t = data.take(i + 1);
    if i == 0 {
        assert(t.drop_first() =~= Seq::<u8>::empty());
        assert(data.take(0) =~= Seq::<u8>::empty());
        assert(hex_lower(t.drop_first()) == Seq::<char>::empty());
        assert(hex_lower(t) =~= seq![hex_digit(data[0] / 16), hex_digit(data[0] % 16)]);
    } else {
        let d = data.drop_first();
        lemma_hex_lower_take(d, i - 1);
        assert(t.drop_first() =~= d.take(i));
        assert(data.take(i).drop_first() =~= d.take(i - 1));
        assert(hex_lower(t) == seq![hex_digit(data[0] / 16), hex_digit(data[0] % 16)] + hex_lower(
            t.drop_first(),
        ));
        assert(hex_lower(data.take(i)) == seq![hex_digit(data[0] / 16), hex_digit(data[0] % 16)]
            + hex_lower(data.take(i).drop_first()));
        assert(d[i - 1] == data[i]);
        assert(hex_lower(t) =~= hex_lower(data.take(i)) + seq![
            hex_digit(data[i] / 16),
            hex_digit(data[i] % 16),
        ]);
    }
}

/// The lowercase hex digits of the first `n` bytes.
fn hex_prefix(data: &Vec<u8>, n: usize) -> (r: Vec<char>)
    requires
        n <= data@.len(),
    ensures
        r@ == hex_lower(data@.take(n as int)),
{
    let mut r: Vec<char> = Vec::new();
    let mut i: usize = 0;
    assert(data@.take(0) =~= Seq::<u8>::empty());
    while i < n
        invariant
            i <= n <= data@.len(),
            r@ == hex_lower(data@.take(i as int)),
        decreases n - i,
    {
        let b = data[i];
        let hi = hex_digit_exec(b / 16);
        let lo = hex_digit_exec(b % 16);
        proof {
            lemma_hex_lower_take(data@, i as int);
        }
        r.push(hi);
        r.push(lo);
        i = i + 1;
    }
    r
}

proof fn lemma_hex_lower_len(data: Seq<u8>)
    ensures
        hex_lower(data).len() == 2 * data.len(),
    decreases data.len(),
{
    if data.len() > 0 {
        lemma_hex_lower_len(data.drop_first());
    }
}

proof fn lemma_hex_lower_prefix(data: Seq<u8>, n: int)
    requires
        0 <= n <= data.len(),
    ensures
        hex_lower(data).take(2 * n) == hex_lower(data.take(n)),
    decreases n,
{
    if n > 0 {
        let d = data.drop_first();
        lemma_hex_lower_prefix(d, n - 1);
        assert(data.take(n).drop_first() =~= d.take(n - 1));
        lemma_hex_lower_len(d);
        let head = seq![hex_digit(data[0] / 16), hex_digit(data[0] % 16)];
        assert(hex_lower(data) == head + hex_lower(d));
        assert(hex_lower(data.take(n)) == head + hex_lower(data.take(n).drop_first()));
        assert((head + hex_lower(d)).take(2 * n) =~= head + hex_lower(d).take(2 * (n - 1)));
    } else {
        assert(data.take(0) =~= Seq::<u8>::empty());
        assert(hex_lower(data).take(0) =~= Seq::<char>::empty());
    }
}

/// The fingerprint of a text: the first twelve lowercase hex digits of the
/// SHA-256 digest of its UTF-8 bytes.
pub open spec fn fingerprint(text: Seq<char>) -> Seq<char> {
    hex_lower(sha256(encode_utf8(text))).take(12)
}

/// The fingerprint of an optional file content.
pub open spec fn opt_fingerprint(content: Option<Seq<char>>) -> Option<Seq<char>> {
    match content {
        Some(t) => Some(fingerprint(t)),
        None => None,
    }
}

/// A short fingerprint of a file's content, when there is content.
pub fn short_hash(content: &Option<String>) -> (r: Option<String>)
    ensures
        opt_view(r) == opt_fingerprint(opt_view(*content)),
{
    match content {
        Some(value) => {
            let bytes = value.as_str().as_bytes();
            let digest = sha256_digest(bytes);
            let digits = hex_prefix(&digest, 6);
            proof {
                lemma_hex_lower_prefix(digest@, 6);
            }
            let out = string_of(&digits);
            assert(opt_view(Some(out)) == Some(fingerprint(value@)));
            Some(out)
        },
        None => None,
    }
}

} // verus!
