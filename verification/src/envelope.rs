//! Message envelopes: payload bytes, a correlation identifier formatted
//! from 128 random bits, a capture timestamp, and the fixed header key the
//! identifier travels under.
//!
//! The identifier has the shape `transaction_<uuid>`, where `<uuid>` is the
//! standard hyphenated rendering of the 128 bits: thirty-two lowercase hex
//! digits in groups of 8-4-4-4-12. Formatting is injective, so distinct
//! bits give distinct correlation ids.

use vstd::prelude::*;

verus! {

/// The header key, visible to stream consumers, that carries the
/// correlation id.
pub const TRANSACTION_HEADER_KEY: &'static str = "x-stream-transaction-id";

/// The lowercase hex digit of a value below 16.
pub open spec fn hex_digit(n: u128) -> char {
    if n == 0 {
        '0'
    } else if n == 1 {
        '1'
    } else if n == 2 {
        '2'
    } else if n == 3 {
        '3'
    } else if n == 4 {
        '4'
    } else if n == 5 {
        '5'
    } else if n == 6 {
        '6'
    } else if n == 7 {
        '7'
    } else if n == 8 {
        '8'
    } else if n == 9 {
        '9'
    } else if n == 10 {
        'a'
    } else if n == 11 {
        'b'
    } else if n == 12 {
        'c'
    } else if n == 13 {
        'd'
    } else if n == 14 {
        'e'
    } else {
        'f'
    }
}

/// The `i`-th of the 32 four-bit groups of `bits`, most significant first.
pub open spec fn nibble_of(bits: u128, i: int) -> u128 {
    (bits >> ((4 * (31 - i)) as u128)) & 0xf
}

/// The 32 hex digits of `bits`, most significant first.
pub open spec fn nibble_chars(bits: u128) -> Seq<char> {
    Seq::new(32, |i: int| hex_digit(nibble_of(bits, i)))
}

/// The hyphenated rendering of `bits`: hex digits in groups of 8-4-4-4-12.
pub open spec fn uuid_chars(bits: u128) -> Seq<char> {
    let nc = nibble_chars(bits);
    nc.subrange(0, 8) + seq!['-'] + nc.subrange(8, 12) + seq!['-'] + nc.subrange(12, 16)
        + seq!['-'] + nc.subrange(16, 20) + seq!['-'] + nc.subrange(20, 32)
}

/// The fixed prefix of every correlation id.
pub open spec fn transaction_prefix() -> Seq<char> {
    seq!['t', 'r', 'a', 'n', 's', 'a', 'c', 't', 'i', 'o', 'n', '_']
}

/// The correlation id formatted from `bits`.
pub open spec fn correlation_chars(bits: u128) -> Seq<char> {
    transaction_prefix() + uuid_chars(bits)
}

/// Appends the hex digit of `n` to `s`.
fn push_hex_digit(s: &mut String, n: u8)
    requires
        n < 16,
    ensures
        final(s)@ == old(s)@ + seq![hex_digit(n as u128)],
{
    let d: &'static str = match n {
        0 => "0",
        1 => "1",
        2 => "2",
        3 => "3",
        4 => "4",
        5 => "5",
        6 => "6",
        7 => "7",
        8 => "8",
        9 => "9",
        10 => "a",
        11 => "b",
        12 => "c",
        13 => "d",
        14 => "e",
        _ => "f",
    };
    proof {
        reveal_strlit("0");
        reveal_strlit("1");
        reveal_strlit("2");
        reveal_strlit("3");
        reveal_strlit("4");
        reveal_strlit("5");
        reveal_strlit("6");
        reveal_strlit("7");
        reveal_strlit("8");
        reveal_strlit("9");
        reveal_strlit("a");
        reveal_strlit("b");
        reveal_strlit("c");
        reveal_strlit("d");
        reveal_strlit("e");
        reveal_strlit("f");
        assert(d@ =~= seq![hex_digit(n as u128)]);
    }
    s.append(d);
}

/// Appends the hex digits of the nibbles `lo..hi` of `bits` to `s`.
fn push_nibbles(s: &mut String, bits: u128, lo: usize, hi: usize)
    requires
        lo <= hi <= 32,
    ensures
        final(s)@ == old(s)@ + nibble_chars(bits).subrange(lo as int, hi as int),
{
    let mut j = lo;
    proof {
        assert(nibble_chars(bits).subrange(lo as int, lo as int) =~= Seq::<char>::empty());
        assert(old(s)@ + nibble_chars(bits).subrange(lo as int, lo as int) =~= old(s)@);
    }
    while j < hi
        invariant
            lo <= j <= hi <= 32,
            s@ == old(s)@ + nibble_chars(bits).subrange(lo as int, j as int),
        decreases hi - j,
    {
        let shift: u128 = (124 - 4 * (j as u128));
        let masked: u128 = (bits >> shift) & 0xf;
        proof {
            assert((bits >> shift) & 0xf < 16) by (bit_vector);
            assert(masked == nibble_of(bits, j as int));
        }
        let nib: u8 = masked as u8;
        push_hex_digit(s, nib);
        proof {
            assert(nibble_chars(bits).subrange(lo as int, j + 1) =~= nibble_chars(
                bits,
            ).subrange(lo as int, j as int) + seq![hex_digit(nibble_of(bits, j as int))]);
            assert(s@ =~= old(s)@ + nibble_chars(bits).subrange(lo as int, j + 1));
        }
        j += 1;
    }
}

/// Formats `bits` as a hyphenated lowercase-hex identifier.
pub fn uuid_hyphenated(bits: u128) -> (r: String)
    ensures
        r@ == uuid_chars(bits),
{
    let mut s = String::new();
    push_nibbles(&mut s, bits, 0, 8);
    s.append("-");
    push_nibbles(&mut s, bits, 8, 12);
    s.append("-");
    push_nibbles(&mut s, bits, 12, 16);
    s.append("-");
    push_nibbles(&mut s, bits, 16, 20);
    s.append("-");
    push_nibbles(&mut s, bits, 20, 32);
    proof {
        reveal_strlit("-");
        assert("-"@ =~= seq!['-']);
        assert(s@ =~= uuid_chars(bits));
    }
    s
}

/// Formats the correlation id `transaction_<uuid>` from `bits`.
pub fn correlation_id(bits: u128) -> (r: String)
    ensures
        r@ == correlation_chars(bits),
{
    let mut s = String::from_str("transaction_");
    let tail = uuid_hyphenated(bits);
    s.append(tail.as_str());
    proof {
        reveal_strlit("transaction_");
        assert("transaction_"@ =~= transaction_prefix());
        assert(s@ =~= correlation_chars(bits));
    }
    s
}

/// Hex digits of values below 16 are pairwise distinct.
proof fn lemma_hex_digit_injective(x: u128, y: u128)
    requires
        x < 16,
        y < 16,
        hex_digit(x) == hex_digit(y),
    ensures
        x == y,
{
}

/// A value is determined by its 32 four-bit groups.
proof fn lemma_nibbles_determine_bits(a: u128, b: u128)
    requires
        forall|j: int| 0 <= j < 32 ==> nibble_of(a, j) == nibble_of(b, j),
    ensures
        a == b,
{
    assert(nibble_of(a, 0) == nibble_of(b, 0));
    assert(nibble_of(a, 1) == nibble_of(b, 1));
    assert(nibble_of(a, 2) == nibble_of(b, 2));
    assert(nibble_of(a, 3) == nibble_of(b, 3));
    assert(nibble_of(a, 4) == nibble_of(b, 4));
    assert(nibble_of(a, 5) == nibble_of(b, 5));
    assert(nibble_of(a, 6) == nibble_of(b, 6));
    assert(nibble_of(a, 7) == nibble_of(b, 7));
    assert(nibble_of(a, 8) == nibble_of(b, 8));
    assert(nibble_of(a, 9) == nibble_of(b, 9));
    assert(nibble_of(a, 10) == nibble_of(b, 10));
    assert(nibble_of(a, 11) == nibble_of(b, 11));
    assert(nibble_of(a, 12) == nibble_of(b, 12));
    assert(nibble_of(a, 13) == nibble_of(b, 13));
    assert(nibble_of(a, 14) == nibble_of(b, 14));
    assert(nibble_of(a, 15) == nibble_of(b, 15));
    assert(nibble_of(a, 16) == nibble_of(b, 16));
    assert(nibble_of(a, 17) == nibble_of(b, 17));
    assert(nibble_of(a, 18) == nibble_of(b, 18));
    assert(nibble_of(a, 19) == nibble_of(b, 19));
    assert(nibble_of(a, 20) == nibble_of(b, 20));
    assert(nibble_of(a, 21) == nibble_of(b, 21));
    assert(nibble_of(a, 22) == nibble_of(b, 22));
    assert(nibble_of(a, 23) == nibble_of(b, 23));
    assert(nibble_of(a, 24) == nibble_of(b, 24));
    assert(nibble_of(a, 25) == nibble_of(b, 25));
    assert(nibble_of(a, 26) == nibble_of(b, 26));
    assert(nibble_of(a, 27) == nibble_of(b, 27));
    assert(nibble_of(a, 28) == nibble_of(b, 28));
    assert(nibble_of(a, 29) == nibble_of(b, 29));
    assert(nibble_of(a, 30) == nibble_of(b, 30));
    assert(nibble_of(a, 31) == nibble_of(b, 31));
    assert((a >> 124u128) & 0xf == (b >> 124u128) & 0xf && (a >> 120u128) & 0xf == (b
        >> 120u128) & 0xf && (a >> 116u128) & 0xf == (b >> 116u128) & 0xf && (a >> 112u128)
        & 0xf == (b >> 112u128) & 0xf && (a >> 108u128) & 0xf == (b >> 108u128) & 0xf && (a
        >> 104u128) & 0xf == (b >> 104u128) & 0xf && (a >> 100u128) & 0xf == (b >> 100u128)
        & 0xf && (a >> 96u128) & 0xf == (b >> 96u128) & 0xf && (a >> 92u128) & 0xf == (b
        >> 92u128) & 0xf && (a >> 88u128) & 0xf == (b >> 88u128) & 0xf && (a >> 84u128) & 0xf
        == (b >> 84u128) & 0xf && (a >> 80u128) & 0xf == (b >> 80u128) & 0xf && (a >> 76u128)
        & 0xf == (b >> 76u128) & 0xf && (a >> 72u128) & 0xf == (b >> 72u128) & 0xf && (a
        >> 68u128) & 0xf == (b >> 68u128) & 0xf && (a >> 64u128) & 0xf == (b >> 64u128) & 0xf
        && (a >> 60u128) & 0xf == (b >> 60u128) & 0xf && (a >> 56u128) & 0xf == (b >> 56u128)
        & 0xf && (a >> 52u128) & 0xf == (b >> 52u128) & 0xf && (a >> 48u128) & 0xf == (b
        >> 48u128) & 0xf && (a >> 44u128) & 0xf == (b >> 44u128) & 0xf && (a >> 40u128) & 0xf
        == (b >> 40u128) & 0xf && (a >> 36u128) & 0xf == (b >> 36u128) & 0xf && (a >> 32u128)
        & 0xf == (b >> 32u128) & 0xf && (a >> 28u128) & 0xf == (b >> 28u128) & 0xf && (a
        >> 24u128) & 0xf == (b >> 24u128) & 0xf && (a >> 20u128) & 0xf == (b >> 20u128) & 0xf
        && (a >> 16u128) & 0xf == (b >> 16u128) & 0xf && (a >> 12u128) & 0xf == (b >> 12u128)
        & 0xf && (a >> 8u128) & 0xf == (b >> 8u128) & 0xf && (a >> 4u128) & 0xf == (b
        >> 4u128) & 0xf && (a >> 0u128) & 0xf == (b >> 0u128) & 0xf ==> a == b)
        by (bit_vector);
}

/// Distinct bits format to distinct correlation ids: formatting is
/// injective, so an id collision can only come from an id-bits collision.
pub proof fn lemma_correlation_id_injective(a: u128, b: u128)
    requires
        a != b,
    ensures
        correlation_chars(a) != correlation_chars(b),
{
    if correlation_chars(a) == correlation_chars(b) {
        assert(uuid_chars(a) =~= correlation_chars(a).subrange(
            12,
            correlation_chars(a).len() as int,
        ));
        assert(uuid_chars(b) =~= correlation_chars(b).subrange(
            12,
            correlation_chars(b).len() as int,
        ));
        assert(uuid_chars(a) == uuid_chars(b));
        assert(nibble_chars(a) =~= uuid_chars(a).subrange(0, 8) + uuid_chars(a).subrange(9, 13)
            + uuid_chars(a).subrange(14, 18) + uuid_chars(a).subrange(19, 23) + uuid_chars(
            a,
        ).subrange(24, 36));
        assert(nibble_chars(b) =~= uuid_chars(b).subrange(0, 8) + uuid_chars(b).subrange(9, 13)
            + uuid_chars(b).subrange(14, 18) + uuid_chars(b).subrange(19, 23) + uuid_chars(
            b,
        ).subrange(24, 36));
        assert(nibble_chars(a) == nibble_chars(b));
        assert forall|j: int| 0 <= j < 32 implies nibble_of(a, j) == nibble_of(b, j) by {
            assert(nibble_chars(a)[j] == nibble_chars(b)[j]);
            assert(nibble_of(a, j) == (a >> ((4 * (31 - j)) as u128)) & 0xf);
            assert(nibble_of(a, j) < 16 && nibble_of(b, j) < 16) by {
                let sa = (4 * (31 - j)) as u128;
                assert(forall|x: u128, s: u128| (x >> s) & 0xf < 16) by (bit_vector);
            }
            lemma_hex_digit_injective(nibble_of(a, j), nibble_of(b, j));
        }
        lemma_nibbles_determine_bits(a, b);
    }
}

/// Across a whole run of envelopes, distinct identifier bits give
/// pairwise distinct correlation ids: no two attempts of the run can be
/// confused with each other.
pub proof fn lemma_run_ids_distinct(bits: Seq<u128>)
    requires
        forall|i: int, j: int| 0 <= i < j < bits.len() ==> bits[i] != bits[j],
    ensures
        forall|i: int, j: int|
            0 <= i < j < bits.len() ==> correlation_chars(bits[i]) != correlation_chars(
                bits[j],
            ),
{
    assert forall|i: int, j: int| 0 <= i < j < bits.len() implies correlation_chars(bits[i])
        != correlation_chars(bits[j]) by {
        lemma_correlation_id_injective(bits[i], bits[j]);
    }
}

/// One outbound message, immutable once built: payload bytes, a
/// correlation id, a capture timestamp in integer milliseconds since the
/// epoch, and the header carrying the id under the fixed key.
pub struct MessageEnvelope {
    pub payload: Vec<u8>,
    pub correlation_id: String,
    pub captured_at: u64,
}

impl MessageEnvelope {
    /// The envelope's one header as a mapping, as a consumer sees it.
    pub open spec fn headers(&self) -> Map<Seq<char>, Seq<char>> {
        map![TRANSACTION_HEADER_KEY@ => self.correlation_id@]
    }

    /// An envelope is well formed when its correlation id was formatted
    /// from some 128-bit value.
    pub open spec fn wf(&self) -> bool {
        exists|bits: u128| self.correlation_id@ == correlation_chars(bits)
    }

    /// Builds one envelope from the payload, the 128 random identifier
    /// bits, and the capture time.
    pub fn build(payload: Vec<u8>, id_bits: u128, captured_at: u64) -> (r: MessageEnvelope)
        ensures
            r.payload@ == payload@,
            r.captured_at == captured_at,
            r.correlation_id@ == correlation_chars(id_bits),
            r.headers() == map![TRANSACTION_HEADER_KEY@ => correlation_chars(id_bits)],
            r.wf(),
    {
        let correlation_id = correlation_id(id_bits);
        MessageEnvelope { payload, correlation_id, captured_at }
    }

    /// The header key the correlation id is published under.
    pub fn header_key(&self) -> (r: &'static str)
        ensures
            r@ == TRANSACTION_HEADER_KEY@,
    {
        TRANSACTION_HEADER_KEY
    }
}

} // verus!
