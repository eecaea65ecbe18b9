//! Content hashes and their hexadecimal texts.
use sha2::Digest;
use vstd::prelude::*;
use xxhash_rust::xxh3::Xxh3;

verus! {

/// The streaming hasher of the XXH3 family.
#[verifier::external_type_specification]
#[verifier::external_body]
pub struct ExXxh3(xxhash_rust::xxh3::Xxh3);

/// The bytes that a hasher was fed, in order.
pub uninterp spec fn fed(hasher: Xxh3) -> Seq<u8>;

/// The 64-bit XXH3 hash of some bytes, with the default seed and secret.
pub uninterp spec fn xxh3_64_of(bytes: Seq<u8>) -> u64;

/// The 128-bit XXH3 hash of some bytes, with the default seed and secret.
pub uninterp spec fn xxh3_128_of(bytes: Seq<u8>) -> u128;

/// The SHA-256 digest of some bytes.
pub uninterp spec fn sha256_of(bytes: Seq<u8>) -> Seq<u8>;

/// `Xxh3::new`: a hasher with the default seed and secret that was fed nothing.
#[verifier::external_body]
pub(crate) fn new_hasher() -> (r: Xxh3)
    ensures
        fed(r) == Seq::<u8>::empty(),
{
    Xxh3::new()
}

/// `Xxh3::update`: feeds one chunk behind what was fed before.
#[verifier::external_body]
pub(crate) fn feed(hasher: &mut Xxh3, chunk: &[u8])
    ensures
        fed(*final(hasher)) == fed(*old(hasher)) + chunk@,
{
    hasher.update(chunk)
}

/// `Xxh3::digest`: the 64-bit hash of all bytes fed, however they were cut
/// into chunks.
#[verifier::external_body]
pub(crate) fn hash_64(hasher: &Xxh3) -> (r: u64)
    ensures
        r == xxh3_64_of(fed(*hasher)),
{
    hasher.digest()
}

/// `Xxh3::digest128`: the 128-bit hash of all bytes fed, however they were cut
/// into chunks.
#[verifier::external_body]
pub(crate) fn hash_128(hasher: &Xxh3) -> (r: u128)
    ensures
        r == xxh3_128_of(fed(*hasher)),
{
    hasher.digest128()
}

/// `Sha256::digest`: the digest of some bytes, 32 bytes long.
#[verifier::external_body]
pub(crate) fn sha256(bytes: &[u8]) -> (r: Vec<u8>)
    ensures
        r@ == sha256_of(bytes@),
        r@.len() == 32,
{
    sha2::Sha256::digest(bytes).to_vec()
}

/// The character of one hexadecimal digit.
pub open spec fn hex_digit(d: int) -> char {
    if d < 10 {
        (48 + d) as char
    } else {
        (87 + d) as char
    }
}

/// The last `width` hexadecimal digits of a number, zeros in front.
pub open spec fn hex(n: nat, width: nat) -> Seq<char>
    decreases width,
{
    if width == 0 {
        Seq::empty()
    } else {
        hex(n / 16, (width - 1) as nat).push(hex_digit((n % 16) as int))
    }
}

/// The hexadecimal digits of some bytes, two for each.
pub open spec fn hex_bytes(bytes: Seq<u8>) -> Seq<char>
    decreases bytes.len(),
{
    if bytes.len() == 0 {
        Seq::empty()
    } else {
        hex_bytes(bytes.drop_last()) + hex(bytes.last() as nat, 2)
    }
}

/// Appends one hexadecimal digit.
fn push_hex_digit(out: &mut String, d: u8)
    requires
        d < 16,
    ensures
        final(out)@ == old(out)@.push(hex_digit(d as int)),
{
    if d < 10 {
        out.push((48 + d) as char);
    } else {
        out.push((87 + d) as char);
    }
}

/// Appends the last `width` hexadecimal digits of a number.
pub fn push_hex(out: &mut String, n: u128, width: usize)
    ensures
        final(out)@ == old(out)@ + hex(n as nat, width as nat),
    decreases width,
{
    if width > 0 {
        push_hex(out, n / 16, width - 1);
        push_hex_digit(out, (n % 16) as u8);
    }
    assert(out@ =~= old(out)@ + hex(n as nat, width as nat));
}

/// The hexadecimal digits of some bytes.
pub fn hex_text(bytes: &Vec<u8>) -> (r: String)
    ensures
        r@ == hex_bytes(bytes@),
{
    let mut out = String::new();
    let mut i: usize = 0;
    while i < bytes.len()
        invariant
            i <= bytes.len(),
            out@ == hex_bytes(bytes@.take(i as int)),
        decreases bytes.len() - i,
    {
        push_hex(&mut out, bytes[i] as u128, 2);
        assert(bytes@.take(i + 1).drop_last() =~= bytes@.take(i as int));
        assert(bytes@.take(i + 1).last() == bytes@[i as int]);
        i += 1;
    }
    assert(bytes@.take(bytes@.len() as int) =~= bytes@);
    out
}

/// A running hash of a file's content: fed chunk by chunk, so that a large file
/// is never held in memory as a whole.
pub struct ContentHasher {
    hasher: Xxh3,
}

impl ContentHasher {
    /// The bytes hashed so far.
    pub closed spec fn bytes(&self) -> Seq<u8> {
        fed(self.hasher)
    }

    /// A hash of nothing yet.
    pub fn new() -> (r: Self)
        ensures
            r.bytes() == Seq::<u8>::empty(),
    {
        ContentHasher { hasher: new_hasher() }
    }

    /// Hashes the next chunk.
    pub fn update(&mut self, chunk: &[u8])
        ensures
            final(self).bytes() == old(self).bytes() + chunk@,
    {
        feed(&mut self.hasher, chunk);
    }

    /// The hash as 32 hexadecimal digits.
    pub fn finish(&self) -> (r: String)
        ensures
            r@ == hex(xxh3_128_of(self.bytes()) as nat, 32),
    {
        let mut out = String::new();
        push_hex(&mut out, hash_128(&self.hasher), 32);
        assert(out@ =~= hex(xxh3_128_of(self.bytes()) as nat, 32));
        out
    }
}

/// The byte `i` of a number, the lowest first.
pub open spec fn le_byte(n: nat, i: nat) -> u8
    decreases i,
{
    if i == 0 {
        (n % 256) as u8
    } else {
        le_byte(n / 256, (i - 1) as nat)
    }
}

/// The bytes of a number, the lowest first.
pub fn le_bytes(n: u128, count: usize) -> (r: Vec<u8>)
    ensures
        r@.len() == count,
        forall|i: int| 0 <= i < count ==> #[trigger] r@[i] == le_byte(n as nat, i as nat),
{
    let mut out: Vec<u8> = Vec::new();
    let mut rest: u128 = n;
    let mut i: usize = 0;
    while i < count
        invariant
            i <= count,
            out@.len() == i,
            forall|j: int| 0 <= j < i ==> #[trigger] out@[j] == le_byte(n as nat, j as nat),
            forall|k: nat| #[trigger] le_byte(rest as nat, k) == le_byte(n as nat, k + i as nat),
        decreases count - i,
    {
        assert(le_byte(rest as nat, 0) == le_byte(n as nat, i as nat));
        out.push((rest % 256) as u8);
        let ghost before = rest;
        rest = rest / 256;
        assert forall|k: nat| #[trigger] le_byte(rest as nat, k) == le_byte(
            n as nat,
            k + (i + 1) as nat,
        ) by {
            assert(le_byte(before as nat, k + 1) == le_byte(rest as nat, k));
        }
        i += 1;
    }
    out
}

/// The eight bytes of a number, the lowest first.
pub open spec fn le_word(n: nat) -> Seq<u8> {
    Seq::new(8, |i: int| le_byte(n, i as nat))
}

/// The powers of 256.
pub open spec fn pow_256(k: nat) -> nat
    decreases k,
{
    if k == 0 {
        1
    } else {
        256 * pow_256((k - 1) as nat)
    }
}

/// Numbers that fit into some bytes and have the same bytes are the same.
pub proof fn bytes_tell_the_number(a: nat, b: nat, k: nat)
    requires
        a < pow_256(k),
        b < pow_256(k),
        forall|i: nat| i < k ==> #[trigger] le_byte(a, i) == le_byte(b, i),
    ensures
        a == b,
    decreases k,
{
    if k > 0 {
        assert(le_byte(a, 0) == le_byte(b, 0));
        assert(a % 256 == b % 256);
        assert forall|i: nat| i < k - 1 implies #[trigger] le_byte(a / 256, i) == le_byte(
            b / 256,
            i,
        ) by {
            assert(le_byte(a, i + 1) == le_byte(b, i + 1));
        }
        bytes_tell_the_number(a / 256, b / 256, (k - 1) as nat);
    }
}

/// A number below 2^64 is told by its eight bytes.
pub proof fn word_tells_the_number(a: nat, b: nat)
    requires
        a <= u64::MAX,
        b <= u64::MAX,
        le_word(a) == le_word(b),
    ensures
        a == b,
{
    assert(pow_256(8) == 0x1_0000_0000_0000_0000) by {
        reveal_with_fuel(pow_256, 9);
    }
    assert forall|i: nat| i < 8 implies #[trigger] le_byte(a, i) == le_byte(b, i) by {
        assert(le_word(a)[i as int] == le_byte(a, i));
        assert(le_word(b)[i as int] == le_byte(b, i));
    }
    bytes_tell_the_number(a, b, 8);
}

} // verus!
