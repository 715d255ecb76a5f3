use vstd::prelude::*;
use vstd::string::*;

verus! {

/// A party's 32-byte public identity.
pub type Identity = [u8; 32];

/// What `solana_program::hash::hash` returns on the given bytes.
pub uninterp spec fn sha256_of(data: Seq<u8>) -> Seq<u8>;

/// Relies on solana_program::hash::hash: the 32-byte digest of the bytes,
/// which depends on the bytes alone.
#[verifier::external_body]
fn sha256(data: &Vec<u8>) -> (r: [u8; 32])
    ensures
        r@ == sha256_of(data@),
{
    anchor_lang::solana_program::hash::hash(data.as_slice()).to_bytes()
}

/// The `n` low bytes of `v`, least significant first.
pub open spec fn le_bytes(v: nat, n: nat) -> Seq<u8>
    decreases n,
{
    if n == 0 {
        Seq::empty()
    } else {
        seq![(v % 256) as u8] + le_bytes(v / 256, (n - 1) as nat)
    }
}

/// The little-endian bytes of a timestamp in two's complement.
pub open spec fn timestamp_bytes(t: i64) -> Seq<u8> {
    le_bytes((t as u64) as nat, 8)
}

/// The bytes hashed to mint an identifier: the identity, then the timestamp.
pub open spec fn seed_of(who: Seq<u8>, t: i64) -> Seq<u8> {
    who + timestamp_bytes(t)
}

/// A 16-byte identifier minted for `who` at time `t`: the first half of the
/// digest of the seed.
pub open spec fn minted_id(who: Seq<u8>, t: i64) -> Seq<u8> {
    sha256_of(seed_of(who, t)).subrange(0, 16)
}

proof fn lemma_le_bytes_step(v: nat, n: nat)
    requires
        n > 0,
    ensures
        le_bytes(v, n) == seq![(v % 256) as u8] + le_bytes(v / 256, (n - 1) as nat),
{
}

/// The seed bytes for `who` at time `t`.
pub fn seed_bytes(who: &Identity, t: i64) -> (r: Vec<u8>)
    ensures
        r@ == seed_of(who@, t),
{
    let mut out: Vec<u8> = Vec::new();
    let mut i: usize = 0;
    while i < 32
        invariant
            i <= 32,
            out@ == who@.subrange(0, i as int),
        decreases 32 - i,
    {
        out.push(who[i]);
        i = i + 1;
    }
    assert(out@ == who@);
    let mut rest: u64 = t as u64;
    let mut k: usize = 0;
    while k < 8
        invariant
            k <= 8,
            out@ + le_bytes(rest as nat, (8 - k) as nat) == seed_of(who@, t),
        decreases 8 - k,
    {
        proof {
            lemma_le_bytes_step(rest as nat, (8 - k) as nat);
        }
        let b: u8 = (rest % 256) as u8;
        let ghost before = out@;
        out.push(b);
        assert(out@ == before + seq![b]);
        rest = rest / 256;
        k = k + 1;
        assert(out@ + le_bytes(rest as nat, (8 - k) as nat) == before + (seq![b] + le_bytes(
            rest as nat,
            (8 - k) as nat,
        )));
    }
    assert(out@ + le_bytes(rest as nat, 0) == out@);
    out
}

/// The identifier carried by a digest: its first 16 bytes.
pub fn id_from_digest(digest: &[u8; 32]) -> (r: [u8; 16])
    ensures
        r@ == digest@.subrange(0, 16),
{
    let mut out: [u8; 16] = [0u8; 16];
    let mut i: usize = 0;
    while i < 16
        invariant
            i <= 16,
            forall|j: int| 0 <= j < i ==> out@[j] == digest@[j],
        decreases 16 - i,
    {
        out[i] = digest[i];
        i = i + 1;
    }
    assert(out@ == digest@.subrange(0, 16));
    out
}

/// Mints the identifier of a record that `who` creates at time `t`.
pub fn mint_id(who: &Identity, t: i64) -> (r: [u8; 16])
    ensures
        r@ == minted_id(who@, t),
{
    let seed = seed_bytes(who, t);
    let digest = sha256(&seed);
    id_from_digest(&digest)
}

/// The lower-case hexadecimal digit of a nibble.
pub open spec fn hex_digit(n: u8) -> char {
    if n < 10 {
        ((48 + n) as u8) as char
    } else {
        ((87 + n) as u8) as char
    }
}

/// Where a hyphen stands in the canonical text of a 16-byte id.
pub open spec fn is_hyphen_pos(k: int) -> bool {
    k == 8 || k == 13 || k == 18 || k == 23
}

/// How many hyphens stand before position `k` of the canonical text.
pub open spec fn hyphens_before(k: int) -> int {
    if k <= 8 {
        0
    } else if k <= 13 {
        1
    } else if k <= 18 {
        2
    } else if k <= 23 {
        3
    } else {
        4
    }
}

/// The character at position `k` of the canonical text: the hex digits of
/// the id, two per byte, high nibble first, in groups of 8-4-4-4-12 split by
/// hyphens.
pub open spec fn uuid_char(id: Seq<u8>, k: int) -> char {
    if is_hyphen_pos(k) {
        '-'
    } else {
        let h: int = k - hyphens_before(k);
        let b: u8 = id[h / 2];
        if h % 2 == 0 {
            hex_digit(b / 16)
        } else {
            hex_digit(b % 16)
        }
    }
}

/// The canonical hyphenated hexadecimal text of a 16-byte id.
pub open spec fn canonical_uuid(id: Seq<u8>) -> Seq<char> {
    Seq::new(36, |k: int| uuid_char(id, k))
}

fn hex_digit_exec(n: u8) -> (c: char)
    requires
        n < 16,
    ensures
        c == hex_digit(n),
{
    if n < 10 {
        (48 + n) as char
    } else {
        (87 + n) as char
    }
}

/// Whether `text` is the canonical text of `id`.
pub fn uuid_text_matches(text: &str, id: &[u8; 16]) -> (r: bool)
    ensures
        r == (text@ == canonical_uuid(id@)),
{
    let n: usize = text.unicode_len();
    if n != 36 {
        return false;
    }
    let mut k: usize = 0;
    while k < 36
        invariant
            k <= 36,
            text@.len() == 36,
            forall|j: int| 0 <= j < k ==> text@[j] == uuid_char(id@, j),
        decreases 36 - k,
    {
        let expected: char = if k == 8 || k == 13 || k == 18 || k == 23 {
            '-'
        } else {
            let h: usize = if k < 8 {
                k
            } else if k < 13 {
                k - 1
            } else if k < 18 {
                k - 2
            } else if k < 23 {
                k - 3
            } else {
                k - 4
            };
            let b: u8 = id[h / 2];
            if h % 2 == 0 {
                hex_digit_exec(b / 16)
            } else {
                hex_digit_exec(b % 16)
            }
        };
        if text.get_char(k) != expected {
            return false;
        }
        k = k + 1;
    }
    assert(text@ == canonical_uuid(id@));
    true
}

} // verus!
