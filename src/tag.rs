use vstd::prelude::*;

verus! {

/// A four-byte identifier that names a font table, script, language or
/// feature, packed big-endian into one `u32`: the first byte is the most
/// significant one.
#[derive(Copy, Clone, Debug, PartialEq, Eq, Structural)]
pub struct Tag(pub u32);

/// The byte that fills the positions of a tag that its source sequence
/// leaves empty: an ASCII space.
pub const TAG_PAD: u8 = 0x20;

/// The value of the big-endian packing of four bytes, `c1` first.
pub open spec fn packed(c1: u8, c2: u8, c3: u8, c4: u8) -> u32 {
    (c1 * 0x1000000 + c2 * 0x10000 + c3 * 0x100 + c4) as u32
}

/// The four bytes of `v`, most significant first.
pub open spec fn unpacked(v: u32) -> Seq<u8> {
    seq![
        (v / 0x1000000) as u8,
        (v / 0x10000 % 0x100) as u8,
        (v / 0x100 % 0x100) as u8,
        (v % 0x100) as u8,
    ]
}

/// The byte that a tag built from `s` holds at position `i`: the byte of `s`
/// there, or a space where `s` is too short.
pub open spec fn padded_byte(s: Seq<u8>, i: int) -> u8 {
    if i < s.len() {
        s[i]
    } else {
        TAG_PAD
    }
}

/// The value of the tag built from the byte sequence `s`: zero when `s` is
/// empty, else the packing of its first four bytes, padded with spaces.
pub open spec fn tag_value_of(s: Seq<u8>) -> u32 {
    if s.len() == 0 {
        0
    } else {
        packed(padded_byte(s, 0), padded_byte(s, 1), padded_byte(s, 2), padded_byte(s, 3))
    }
}

/// Byte `i` of `s`, or a space where `s` has no such byte.
fn byte_or_space(s: &[u8], i: usize) -> (r: u8)
    ensures
        r == padded_byte(s@, i as int),
{
    if i < s.len() {
        s[i]
    } else {
        TAG_PAD
    }
}

impl Tag {
    /// The tag that stands for "no tag": all bits zero.
    pub fn none() -> (r: Tag)
        ensures
            r.0 == 0,
    {
        Tag(0)
    }

    /// Packs four bytes into a tag, `c1` in the most significant byte and
    /// `c4` in the least significant one.
    pub fn from_bytes(c1: u8, c2: u8, c3: u8, c4: u8) -> (r: Tag)
        ensures
            r.0 == packed(c1, c2, c3, c4),
    {
        let c1 = c1 as u32;
        let c2 = c2 as u32;
        let c3 = c3 as u32;
        let c4 = c4 as u32;
        let v: u32 = (c1 << 24) | (c2 << 16) | (c3 << 8) | c4;
        assert(v == (c1 * 0x1000000 + c2 * 0x10000 + c3 * 0x100 + c4) as u32) by (bit_vector)
            requires
                v == (c1 << 24) | (c2 << 16) | (c3 << 8) | c4,
                c1 < 0x100 && c2 < 0x100 && c3 < 0x100 && c4 < 0x100,
        ;
        Tag(v)
    }

    /// Builds a tag from a byte sequence: "no tag" when it is empty, else its
    /// first four bytes, padded with spaces where it has fewer.
    pub fn from_string(s: &[u8]) -> (r: Tag)
        ensures
            r.0 == tag_value_of(s@),
            s@.len() == 0 ==> r.0 == 0,
    {
        if s.len() == 0 {
            return Tag::none();
        }
        Tag::from_bytes(
            byte_or_space(s, 0),
            byte_or_space(s, 1),
            byte_or_space(s, 2),
            byte_or_space(s, 3),
        )
    }

    /// The four bytes of the tag, most significant first.
    pub fn to_string(self) -> (r: [u8; 4])
        ensures
            r@ == unpacked(self.0),
    {
        let tag = self.0;
        let r = [(tag >> 24) as u8, (tag >> 16) as u8, (tag >> 8) as u8, (tag >> 0) as u8];
        assert((tag >> 24) as u8 == (tag / 0x1000000) as u8
            && (tag >> 16) as u8 == (tag / 0x10000 % 0x100) as u8
            && (tag >> 8) as u8 == (tag / 0x100 % 0x100) as u8
            && (tag >> 0) as u8 == (tag % 0x100) as u8) by (bit_vector);
        assert(r@ =~= unpacked(tag));
        r
    }
}

/// Unpacking the packing of four bytes gives back those bytes, in order.
pub proof fn lemma_unpacked_packed(c1: u8, c2: u8, c3: u8, c4: u8)
    ensures
        unpacked(packed(c1, c2, c3, c4)) == seq![c1, c2, c3, c4],
{
    let v = packed(c1, c2, c3, c4);
    assert(v == (c1 * 0x1000000 + c2 * 0x10000 + c3 * 0x100 + c4) as u32);
    assert((v / 0x1000000) as u8 == c1 && (v / 0x10000 % 0x100) as u8 == c2
        && (v / 0x100 % 0x100) as u8 == c3 && (v % 0x100) as u8 == c4) by (bit_vector)
        requires
            v == (c1 * 0x1000000 + c2 * 0x10000 + c3 * 0x100 + c4) as u32,
    ;
    assert(unpacked(v) =~= seq![c1, c2, c3, c4]);
}

/// Only the first four bytes of a sequence matter to the tag built from it.
pub proof fn lemma_tag_value_truncates(s: Seq<u8>)
    requires
        s.len() >= 4,
    ensures
        tag_value_of(s) == tag_value_of(s.take(4)),
{
    let t = s.take(4);
    assert forall|i: int| 0 <= i < 4 implies padded_byte(t, i) == padded_byte(s, i) by {
        assert(t[i] == s[i]);
    }
}

/// A sequence shorter than four bytes builds the same tag as that sequence
/// with a space appended: missing bytes are spaces.
pub proof fn lemma_tag_value_pads_with_space(s: Seq<u8>)
    requires
        0 < s.len() < 4,
    ensures
        tag_value_of(s) == tag_value_of(s.push(TAG_PAD)),
{
}

/// The empty sequence builds the "no tag" value, zero.
pub proof fn lemma_tag_value_empty()
    ensures
        tag_value_of(Seq::empty()) == 0,
{
}

} // verus!
