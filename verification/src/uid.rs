//! 16-byte globally unique identifiers.
//!
//! Each capability (interface) declares its identifier as an associated
//! constant-like value; see `Interface::iid`. An identifier is constructed
//! from four 32-bit words by a fixed word-to-byte transform: word 0 is stored
//! in bytes 0..4 in little-endian order, word 1 in bytes 4..8 with its high
//! and low 16-bit halves each independently byte-swapped, and words 2 and 3
//! in bytes 8..12 and 12..16 in big-endian order.

use vstd::prelude::*;
use crate::funknown::FUnknownPrivate;

verus! {

/// The raw 16-byte identifier value.
pub type TUID = [u8; 16];

/// The word-to-byte transform: the 16 bytes that encode four 32-bit words.
pub open spec fn tuid_of_words(w0: u32, w1: u32, w2: u32, w3: u32) -> Seq<u8> {
    seq![
        (w0 & 0x0000_00FF) as u8,
        ((w0 & 0x0000_FF00) >> 8) as u8,
        ((w0 & 0x00FF_0000) >> 16) as u8,
        ((w0 & 0xFF00_0000) >> 24) as u8,
        ((w1 & 0x00FF_0000) >> 16) as u8,
        ((w1 & 0xFF00_0000) >> 24) as u8,
        (w1 & 0x0000_00FF) as u8,
        ((w1 & 0x0000_FF00) >> 8) as u8,
        ((w2 & 0xFF00_0000) >> 24) as u8,
        ((w2 & 0x00FF_0000) >> 16) as u8,
        ((w2 & 0x0000_FF00) >> 8) as u8,
        (w2 & 0x0000_00FF) as u8,
        ((w3 & 0xFF00_0000) >> 24) as u8,
        ((w3 & 0x00FF_0000) >> 16) as u8,
        ((w3 & 0x0000_FF00) >> 8) as u8,
        (w3 & 0x0000_00FF) as u8,
    ]
}

/// Four bytes packed into a 32-bit word, most significant byte first.
pub open spec fn spec_make_long(b1: u8, b2: u8, b3: u8, b4: u8) -> u32 {
    ((b1 as u32) << 24) | ((b2 as u32) << 16) | ((b3 as u32) << 8) | (b4 as u32)
}

/// The first word recovered from an identifier's bytes.
pub open spec fn spec_long_1(s: Seq<u8>) -> u32 {
    spec_make_long(s[3], s[2], s[1], s[0])
}

/// The second word recovered from an identifier's bytes.
pub open spec fn spec_long_2(s: Seq<u8>) -> u32 {
    spec_make_long(s[5], s[4], s[7], s[6])
}

/// The third word recovered from an identifier's bytes.
pub open spec fn spec_long_3(s: Seq<u8>) -> u32 {
    spec_make_long(s[8], s[9], s[10], s[11])
}

/// The fourth word recovered from an identifier's bytes.
pub open spec fn spec_long_4(s: Seq<u8>) -> u32 {
    spec_make_long(s[12], s[13], s[14], s[15])
}

/// Packs four bytes into a 32-bit word, most significant byte first.
pub fn make_long(b1: u8, b2: u8, b3: u8, b4: u8) -> (r: u32)
    ensures
        r == spec_make_long(b1, b2, b3, b4),
{
    ((b1 as u32) << 24) | ((b2 as u32) << 16) | ((b3 as u32) << 8) | (b4 as u32)
}

/// Namespace for the word-to-byte transform on raw identifier values.
pub struct UID;

impl UID {
    /// Encodes four 32-bit words as the 16 identifier bytes.
    pub fn to_tuid(p0: u32, p1: u32, p2: u32, p3: u32) -> (r: TUID)
        ensures
            r@ == tuid_of_words(p0, p1, p2, p3),
    {
        let l1_1: u8 = ((p0 & 0xFF00_0000) >> 24) as u8;
        let l1_2: u8 = ((p0 & 0x00FF_0000) >> 16) as u8;
        let l1_3: u8 = ((p0 & 0x0000_FF00) >> 8) as u8;
        let l1_4: u8 = (p0 & 0x0000_00FF) as u8;
        let l2_1: u8 = ((p1 & 0xFF00_0000) >> 24) as u8;
        let l2_2: u8 = ((p1 & 0x00FF_0000) >> 16) as u8;
        let l2_3: u8 = ((p1 & 0x0000_FF00) >> 8) as u8;
        let l2_4: u8 = (p1 & 0x0000_00FF) as u8;
        let l3_1: u8 = ((p2 & 0xFF00_0000) >> 24) as u8;
        let l3_2: u8 = ((p2 & 0x00FF_0000) >> 16) as u8;
        let l3_3: u8 = ((p2 & 0x0000_FF00) >> 8) as u8;
        let l3_4: u8 = (p2 & 0x0000_00FF) as u8;
        let l4_1: u8 = ((p3 & 0xFF00_0000) >> 24) as u8;
        let l4_2: u8 = ((p3 & 0x00FF_0000) >> 16) as u8;
        let l4_3: u8 = ((p3 & 0x0000_FF00) >> 8) as u8;
        let l4_4: u8 = (p3 & 0x0000_00FF) as u8;

        let r: TUID = [
            l1_4, l1_3, l1_2, l1_1, l2_2, l2_1, l2_4, l2_3, l3_1, l3_2, l3_3, l3_4, l4_1, l4_2,
            l4_3, l4_4,
        ];
        proof {
            assert(r@ =~= tuid_of_words(p0, p1, p2, p3));
        }
        r
    }
}

/// Handling of 16-byte globally unique identifiers as a value type.
#[derive(Copy, Clone)]
pub struct FUID {
    pub data: TUID,
}

impl PartialEq for FUID {
    /// Compares the first and last eight bytes as two 64-bit values each;
    /// equivalent to a full byte-wise comparison.
    fn eq(&self, other: &Self) -> (r: bool) {
        FUnknownPrivate::iid_equal(&self.data, &other.data)
    }
}

impl Eq for FUID {}

impl vstd::std_specs::cmp::PartialEqSpecImpl for FUID {
    open spec fn obeys_eq_spec() -> bool {
        true
    }

    open spec fn eq_spec(&self, other: &FUID) -> bool {
        self.data@ == other.data@
    }
}

impl FUID {
    /// Constructs an identifier from four 32-bit words by the fixed
    /// word-to-byte transform.
    pub fn new(l1: u32, l2: u32, l3: u32, l4: u32) -> (r: Self)
        ensures
            r.data@ == tuid_of_words(l1, l2, l3, l4),
    {
        FUID { data: UID::to_tuid(l1, l2, l3, l4) }
    }

    /// Constructs an identifier from four 32-bit words, masking each byte
    /// out of its word directly: a second code path for the same
    /// word-to-byte transform as `FUID::new`.
    pub fn from_words(value: [u32; 4]) -> (r: Self)
        ensures
            r.data@ == tuid_of_words(value@[0], value@[1], value@[2], value@[3]),
    {
        let data: TUID = [
            (value[0] & 0x0000_00FF) as u8,
            ((value[0] & 0x0000_FF00) >> 8) as u8,
            ((value[0] & 0x00FF_0000) >> 16) as u8,
            ((value[0] & 0xFF00_0000) >> 24) as u8,
            ((value[1] & 0x00FF_0000) >> 16) as u8,
            ((value[1] & 0xFF00_0000) >> 24) as u8,
            (value[1] & 0x0000_00FF) as u8,
            ((value[1] & 0x0000_FF00) >> 8) as u8,
            ((value[2] & 0xFF00_0000) >> 24) as u8,
            ((value[2] & 0x00FF_0000) >> 16) as u8,
            ((value[2] & 0x0000_FF00) >> 8) as u8,
            (value[2] & 0x0000_00FF) as u8,
            ((value[3] & 0xFF00_0000) >> 24) as u8,
            ((value[3] & 0x00FF_0000) >> 16) as u8,
            ((value[3] & 0x0000_FF00) >> 8) as u8,
            (value[3] & 0x0000_00FF) as u8,
        ];
        proof {
            assert(data@ =~= tuid_of_words(value@[0], value@[1], value@[2], value@[3]));
        }
        FUID { data }
    }

    /// Decomposes the identifier back into the first of its four words.
    pub fn get_long_1(&self) -> (r: u32)
        ensures
            r == spec_long_1(self.data@),
    {
        make_long(self.data[3], self.data[2], self.data[1], self.data[0])
    }

    /// Decomposes the identifier back into the second of its four words.
    pub fn get_long_2(&self) -> (r: u32)
        ensures
            r == spec_long_2(self.data@),
    {
        make_long(self.data[5], self.data[4], self.data[7], self.data[6])
    }

    /// Decomposes the identifier back into the third of its four words.
    pub fn get_long_3(&self) -> (r: u32)
        ensures
            r == spec_long_3(self.data@),
    {
        make_long(self.data[8], self.data[9], self.data[10], self.data[11])
    }

    /// Decomposes the identifier back into the fourth of its four words.
    pub fn get_long_4(&self) -> (r: u32)
        ensures
            r == spec_long_4(self.data@),
    {
        make_long(self.data[12], self.data[13], self.data[14], self.data[15])
    }
}

/// The lexicographic byte order of two identifiers, examined from index `k`
/// on; ordering carries no semantic meaning, it only serves stable sorting
/// and lookup.
pub open spec fn spec_lex_ordering(a: Seq<u8>, b: Seq<u8>, k: int) -> core::cmp::Ordering
    decreases a.len() - k,
{
    if k < 0 || k >= a.len() || k >= b.len() {
        core::cmp::Ordering::Equal
    } else if a[k] < b[k] {
        core::cmp::Ordering::Less
    } else if a[k] > b[k] {
        core::cmp::Ordering::Greater
    } else {
        spec_lex_ordering(a, b, k + 1)
    }
}

/// If the bytes before `k` agree, the lexicographic comparison may start
/// at `k`.
proof fn lemma_lex_skip(a: Seq<u8>, b: Seq<u8>, k: int)
    requires
        0 <= k <= a.len(),
        a.len() == b.len(),
        forall|j: int| 0 <= j < k ==> a[j] == b[j],
    ensures
        spec_lex_ordering(a, b, 0) == spec_lex_ordering(a, b, k),
    decreases k,
{
    if k > 0 {
        lemma_lex_skip(a, b, k - 1);
    }
}

impl PartialOrd for FUID {
    /// Plain lexicographic byte comparison.
    fn partial_cmp(&self, other: &Self) -> (r: Option<core::cmp::Ordering>) {
        let mut i: usize = 0;
        while i < 16
            invariant
                i <= 16,
                forall|j: int| 0 <= j < i ==> self.data@[j] == other.data@[j],
            decreases 16 - i,
        {
            if self.data[i] < other.data[i] {
                proof {
                    lemma_lex_skip(self.data@, other.data@, i as int);
                }
                return Some(core::cmp::Ordering::Less);
            }
            if self.data[i] > other.data[i] {
                proof {
                    lemma_lex_skip(self.data@, other.data@, i as int);
                }
                return Some(core::cmp::Ordering::Greater);
            }
            i += 1;
        }
        proof {
            lemma_lex_skip(self.data@, other.data@, 16);
        }
        Some(core::cmp::Ordering::Equal)
    }
}

impl vstd::std_specs::cmp::PartialOrdSpecImpl for FUID {
    open spec fn obeys_partial_cmp_spec() -> bool {
        true
    }

    open spec fn partial_cmp_spec(&self, other: &FUID) -> Option<core::cmp::Ordering> {
        Some(spec_lex_ordering(self.data@, other.data@, 0))
    }
}

impl From<TUID> for FUID {
    /// Wraps an existing 16-byte identifier value.
    fn from(value: TUID) -> (r: Self) {
        FUID { data: value }
    }
}

impl vstd::std_specs::convert::FromSpecImpl<TUID> for FUID {
    open spec fn obeys_from_spec() -> bool {
        true
    }

    open spec fn from_spec(v: TUID) -> FUID {
        FUID { data: v }
    }
}

/// The character for one hexadecimal digit value.
pub open spec fn spec_hex_char(n: u8) -> char {
    "0123456789abcdef"@[n as int]
}

/// The four characters of the low 16 bits of `v`, highest nibble first.
pub open spec fn spec_hex4(v: u32) -> Seq<char> {
    seq![
        spec_hex_char(((v >> 12) & 0xF) as u8),
        spec_hex_char(((v >> 8) & 0xF) as u8),
        spec_hex_char(((v >> 4) & 0xF) as u8),
        spec_hex_char((v & 0xF) as u8),
    ]
}

/// The eight characters of `v`, highest nibble first.
pub open spec fn spec_hex8(v: u32) -> Seq<char> {
    spec_hex4(v >> 16) + spec_hex4(v)
}

/// The canonical grouped text form of an identifier, five dash-separated
/// groups over the four decomposed words: the first word; the high half of
/// the second; the third word in two halves; then the low half of the second
/// word followed by the fourth word.
pub open spec fn spec_uid_text(s: Seq<u8>) -> Seq<char> {
    let l1 = spec_long_1(s);
    let l2 = spec_long_2(s);
    let l3 = spec_long_3(s);
    let l4 = spec_long_4(s);
    spec_hex8(l1) + seq!['-'] + spec_hex4(l2 >> 16) + seq!['-'] + spec_hex4(l3 >> 16) + seq!['-']
        + spec_hex4(l3) + seq!['-'] + spec_hex4(l2) + spec_hex8(l4)
}

/// Appends the character of one hexadecimal digit value.
fn append_hex_digit(s: &mut String, n: u32)
    requires
        n < 16,
    ensures
        final(s)@ == old(s)@ + seq![spec_hex_char(n as u8)],
{
    let digits: &str = "0123456789abcdef";
    proof {
        reveal_strlit("0123456789abcdef");
    }
    let d = digits.substring_ascii(n as usize, n as usize + 1);
    vstd::string::StringExecFns::append(s, d);
    proof {
        assert(s@ =~= old(s)@ + seq![spec_hex_char(n as u8)]);
    }
}

/// Appends the four hex characters of the low 16 bits of `v`.
fn append_hex4(s: &mut String, v: u32)
    ensures
        final(s)@ == old(s)@ + spec_hex4(v),
{
    proof {
        assert((v >> 12) & 0xF < 16 && (v >> 8) & 0xF < 16 && (v >> 4) & 0xF < 16 && v & 0xF < 16)
            by (bit_vector);
    }
    append_hex_digit(s, (v >> 12) & 0xF);
    append_hex_digit(s, (v >> 8) & 0xF);
    append_hex_digit(s, (v >> 4) & 0xF);
    append_hex_digit(s, v & 0xF);
    proof {
        assert(s@ =~= old(s)@ + spec_hex4(v));
    }
}

/// Appends the eight hex characters of `v`.
fn append_hex8(s: &mut String, v: u32)
    ensures
        final(s)@ == old(s)@ + spec_hex8(v),
{
    append_hex4(s, v >> 16);
    append_hex4(s, v);
    proof {
        assert(s@ =~= old(s)@ + spec_hex8(v));
    }
}

/// Appends a group separator.
fn append_dash(s: &mut String)
    ensures
        final(s)@ == old(s)@ + seq!['-'],
{
    proof {
        reveal_strlit("-");
    }
    vstd::string::StringExecFns::append(s, "-");
    proof {
        assert(s@ =~= old(s)@ + seq!['-']);
    }
}

/// Whether any identifier byte is set; the all-zero value is reserved as
/// the invalid identifier.
pub open spec fn spec_is_valid(s: Seq<u8>) -> bool {
    exists|i: int| 0 <= i < s.len() && s[i] != 0
}

/// The entropy bytes with the standard random-identifier scheme's version
/// and variant bits stamped in: version 4 in the high nibble of byte 6 and
/// variant 2 in the top two bits of byte 8.
pub open spec fn spec_stamped(s: Seq<u8>) -> Seq<u8> {
    s.update(6, (s[6] & 0x0F) | 0x40).update(8, (s[8] & 0x3F) | 0x80)
}

/// Whether the version and variant bits hold the standard scheme's values.
pub open spec fn spec_version_ok(s: Seq<u8>) -> bool {
    &&& s.len() == 16
    &&& s[6] >> 4 == 4
    &&& s[8] >> 6 == 2
}

/// Relies on `getrandom::fill`: fills the buffer with bytes from the
/// operating system's random source, or reports failure. The bytes depend on
/// that source, so nothing is promised of them.
#[verifier::external_body]
fn os_random_tuid() -> (r: Option<TUID>) {
    let mut data: TUID = [0u8; 16];
    match getrandom::fill(&mut data) {
        Ok(()) => Some(data),
        Err(_) => None,
    }
}

impl FUID {
    /// Renders the canonical grouped hexadecimal text form.
    pub fn to_uid_string(&self) -> (r: String)
        ensures
            r@ == spec_uid_text(self.data@),
    {
        let l1 = self.get_long_1();
        let l2 = self.get_long_2();
        let l3 = self.get_long_3();
        let l4 = self.get_long_4();
        let mut s = String::new();
        append_hex8(&mut s, l1);
        append_dash(&mut s);
        append_hex4(&mut s, l2 >> 16);
        append_dash(&mut s);
        append_hex4(&mut s, l3 >> 16);
        append_dash(&mut s);
        append_hex4(&mut s, l3);
        append_dash(&mut s);
        append_hex4(&mut s, l2);
        append_hex8(&mut s, l4);
        proof {
            assert(s@ =~= spec_uid_text(self.data@));
        }
        s
    }

    /// Whether the identifier is valid: any byte is set. The all-zero value
    /// is reserved as the invalid identifier.
    pub fn is_valid(&self) -> (r: bool)
        ensures
            r == spec_is_valid(self.data@),
    {
        let mut i: usize = 0;
        while i < 16
            invariant
                i <= 16,
                forall|k: int| 0 <= k < i ==> self.data@[k] == 0,
            decreases 16 - i,
        {
            if self.data[i] != 0 {
                proof {
                    assert(self.data@[i as int] != 0);
                }
                return true;
            }
            i += 1;
        }
        false
    }

    /// Stamps the standard version and variant bits into fresh entropy
    /// bytes; the result is a valid identifier whatever the bytes were.
    pub fn from_entropy(data: TUID) -> (r: FUID)
        ensures
            r.data@ == spec_stamped(data@),
            spec_version_ok(r.data@),
            spec_is_valid(r.data@),
    {
        let b6 = (data[6] & 0x0F) | 0x40;
        let b8 = (data[8] & 0x3F) | 0x80;
        let d: TUID = [
            data[0], data[1], data[2], data[3], data[4], data[5], b6, data[7], b8, data[9],
            data[10], data[11], data[12], data[13], data[14], data[15],
        ];
        proof {
            assert(d@ =~= spec_stamped(data@));
            let x = data@[6];
            let y = data@[8];
            assert(((x & 0x0F) | 0x40) >> 4 == 4) by (bit_vector);
            assert(((y & 0x3F) | 0x80) >> 6 == 2) by (bit_vector);
            assert(((y & 0x3F) | 0x80) != 0) by (bit_vector);
            assert(d@[8] != 0);
        }
        FUID { data: d }
    }

    /// Produces a fresh random identifier with the standard version and
    /// variant bits set, or nothing when the system's random source fails.
    pub fn generate() -> (r: Option<FUID>)
        ensures
            r matches Some(f) ==> spec_version_ok(f.data@) && spec_is_valid(f.data@),
    {
        match os_random_tuid() {
            Some(d) => Some(FUID::from_entropy(d)),
            None => None,
        }
    }
}

/// Reconstructing each word from the encoded bytes undoes the encoding:
/// decomposition is the exact inverse of construction, for all four words.
pub proof fn lemma_construct_decompose(w0: u32, w1: u32, w2: u32, w3: u32)
    ensures
        spec_long_1(tuid_of_words(w0, w1, w2, w3)) == w0,
        spec_long_2(tuid_of_words(w0, w1, w2, w3)) == w1,
        spec_long_3(tuid_of_words(w0, w1, w2, w3)) == w2,
        spec_long_4(tuid_of_words(w0, w1, w2, w3)) == w3,
{
    assert(((((w0 & 0xFF00_0000) >> 24) as u8 as u32) << 24) | ((((w0 & 0x00FF_0000) >> 16) as u8
        as u32) << 16) | ((((w0 & 0x0000_FF00) >> 8) as u8 as u32) << 8) | ((w0
        & 0x0000_00FF) as u8 as u32) == w0) by (bit_vector);
    assert(((((w1 & 0xFF00_0000) >> 24) as u8 as u32) << 24) | ((((w1 & 0x00FF_0000) >> 16) as u8
        as u32) << 16) | ((((w1 & 0x0000_FF00) >> 8) as u8 as u32) << 8) | ((w1
        & 0x0000_00FF) as u8 as u32) == w1) by (bit_vector);
    assert(((((w2 & 0xFF00_0000) >> 24) as u8 as u32) << 24) | ((((w2 & 0x00FF_0000) >> 16) as u8
        as u32) << 16) | ((((w2 & 0x0000_FF00) >> 8) as u8 as u32) << 8) | ((w2
        & 0x0000_00FF) as u8 as u32) == w2) by (bit_vector);
    assert(((((w3 & 0xFF00_0000) >> 24) as u8 as u32) << 24) | ((((w3 & 0x00FF_0000) >> 16) as u8
        as u32) << 16) | ((((w3 & 0x0000_FF00) >> 8) as u8 as u32) << 8) | ((w3
        & 0x0000_00FF) as u8 as u32) == w3) by (bit_vector);
}

/// Identifier equality is reflexive.
pub proof fn lemma_uid_eq_reflexive(a: FUID)
    ensures
        a.data@ == a.data@,
{
}

/// Identifier equality is symmetric.
pub proof fn lemma_uid_eq_symmetric(a: FUID, b: FUID)
    ensures
        (a.data@ == b.data@) == (b.data@ == a.data@),
{
}

/// Identifier equality is transitive.
pub proof fn lemma_uid_eq_transitive(a: FUID, b: FUID, c: FUID)
    ensures
        a.data@ == b.data@ && b.data@ == c.data@ ==> a.data@ == c.data@,
{
}

} // verus!
