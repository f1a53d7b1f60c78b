//! Semantic versions and the 32-bit packed wire format.
//!
//! A version `major.minor.patch` packs into a single 32-bit integer as
//! `(major << 22) | (minor << 12) | patch`, each field masked to its bit
//! width (major: bits 22..=31, minor: bits 12..=21, patch: bits 0..=11).
//! The packed form is the value handed to the native API's version fields.

use vstd::prelude::*;

use crate::decimal::{
    all_digits, dec_str, dec_val, lemma_dec_str_digits, lemma_dec_val_of_dec_str, parse_u32,
    u32_to_string,
};

verus! {

/// A semantic version.
#[derive(Clone, Copy, Debug, PartialEq, Eq, Structural)]
pub struct Version {
    pub major: u32,
    pub minor: u32,
    pub patch: u32,
}

/// The packed 32-bit form of a version: each field masked to its bit width,
/// then placed at its bit offset.
pub open spec fn packed_of(major: u32, minor: u32, patch: u32) -> u32 {
    ((major & 0x3ff) << 22) | ((minor & 0x3ff) << 12) | (patch & 0xfff)
}

/// The major field of a packed version (bits 22..=31).
pub open spec fn major_of(v: u32) -> u32 {
    (v >> 22) & 0x3ff
}

/// The minor field of a packed version (bits 12..=21).
pub open spec fn minor_of(v: u32) -> u32 {
    (v >> 12) & 0x3ff
}

/// The patch field of a packed version (bits 0..=11).
pub open spec fn patch_of(v: u32) -> u32 {
    v & 0xfff
}

/// Relies on ash's `vk::make_version`, whose body is exactly
/// `(major << 22) | (minor << 12) | patch`.
#[verifier::external_body]
fn vk_make_version(major: u32, minor: u32, patch: u32) -> (r: u32)
    ensures
        r == (major << 22) | (minor << 12) | patch,
{
    ash::vk::make_version(major, minor, patch)
}

/// The mask with exactly the bits `start..=end` set.
pub open spec fn range_mask(start: usize, end: usize) -> u32
    recommends
        start <= end < 32,
{
    (((1u64 << ((end - start + 1) as u64)) - 1) as u32) << (start as u32)
}

/// Builds the mask with exactly the bits `start..=end` set.
pub fn bit_range_mask(start: usize, end: usize) -> (r: u32)
    requires
        start <= end < 32,
    ensures
        r == range_mask(start, end),
{
    let width: u64 = (end - start + 1) as u64;
    assert(1u64 << width >= 1 && (1u64 << width) - 1 <= 0xffff_ffffu64) by (bit_vector)
        requires 1 <= width <= 32;
    let wide: u64 = (1u64 << width) - 1;
    (wide as u32) << (start as u32)
}

impl Version {
    /// Packs the version to its 32-bit wire form.
    pub fn packed(&self) -> (r: u32)
        ensures
            r == packed_of(self.major, self.minor, self.patch),
    {
        vk_make_version(self.major & 0x3ff, self.minor & 0x3ff, self.patch & 0xfff)
    }
}

impl From<u32> for Version {
    /// Unpacks the three fields from the 32-bit wire form.
    fn from(v: u32) -> (r: Version) {
        let major_mask = bit_range_mask(22, 31);
        let minor_mask = bit_range_mask(12, 21);
        let patch_mask = bit_range_mask(0, 11);
        assert((((1u64 << 10) - 1) as u32) << 22u32 == 0xffc0_0000u32) by (bit_vector);
        assert((((1u64 << 10) - 1) as u32) << 12u32 == 0x003f_f000u32) by (bit_vector);
        assert((((1u64 << 12) - 1) as u32) << 0u32 == 0x0000_0fffu32) by (bit_vector);
        let major = (v & major_mask) >> 22;
        let minor = (v & minor_mask) >> 12;
        let patch = v & patch_mask;
        assert((v & 0xffc0_0000u32) >> 22 == (v >> 22) & 0x3ff) by (bit_vector);
        assert((v & 0x003f_f000u32) >> 12 == (v >> 12) & 0x3ff) by (bit_vector);
        assert((v & 0x0000_0fffu32) == v & 0xfff) by (bit_vector);
        Version { major, minor, patch }
    }
}

impl vstd::std_specs::convert::FromSpecImpl<u32> for Version {
    open spec fn obeys_from_spec() -> bool {
        true
    }

    open spec fn from_spec(v: u32) -> Version {
        Version { major: major_of(v), minor: minor_of(v), patch: patch_of(v) }
    }
}

impl From<(u32, u32, u32)> for Version {
    /// Reads the three fields from a `(major, minor, patch)` triple.
    fn from(t: (u32, u32, u32)) -> (r: Version) {
        Version { major: t.0, minor: t.1, patch: t.2 }
    }
}

impl vstd::std_specs::convert::FromSpecImpl<(u32, u32, u32)> for Version {
    open spec fn obeys_from_spec() -> bool {
        true
    }

    open spec fn from_spec(t: (u32, u32, u32)) -> Version {
        Version { major: t.0, minor: t.1, patch: t.2 }
    }
}

/// The segments of `s` between `'.'` separators, in order.  A string without
/// a separator is one segment; every separator ends a segment, so `n`
/// separators give `n + 1` segments.
pub open spec fn split_dots(s: Seq<char>) -> Seq<Seq<char>>
    decreases s.len(),
{
    if s.len() == 0 {
        seq![Seq::<char>::empty()]
    } else if s[0] == '.' {
        seq![Seq::<char>::empty()] + split_dots(s.skip(1))
    } else {
        let r = split_dots(s.skip(1));
        seq![seq![s[0]] + r[0]] + r.skip(1)
    }
}

/// Splitting yields at least one segment.
pub proof fn lemma_split_dots_len(s: Seq<char>)
    ensures
        split_dots(s).len() >= 1,
    decreases s.len(),
{
    if s.len() != 0 {
        lemma_split_dots_len(s.skip(1));
    }
}

/// A string without separators is a single segment.
proof fn lemma_split_no_dot(s: Seq<char>)
    requires
        forall|i: int| 0 <= i < s.len() ==> s[i] != '.',
    ensures
        split_dots(s) =~~= seq![s],
    decreases s.len(),
{
    if s.len() != 0 {
        lemma_split_no_dot(s.skip(1));
        assert(seq![s[0]] + s.skip(1) =~= s);
    }
}

/// A separator after a separator-free prefix splits the string there.
proof fn lemma_split_at_dot(a: Seq<char>, b: Seq<char>)
    requires
        forall|i: int| 0 <= i < a.len() ==> a[i] != '.',
    ensures
        split_dots(a + seq!['.'] + b) =~~= seq![a] + split_dots(b),
    decreases a.len(),
{
    let s = a + seq!['.'] + b;
    if a.len() == 0 {
        assert(s[0] == '.');
        assert(s.skip(1) =~= b);
    } else {
        lemma_split_at_dot(a.skip(1), b);
        assert(s[0] == a[0]);
        assert(s[0] != '.');
        assert(s.skip(1) =~= a.skip(1) + seq!['.'] + b);
        let r = split_dots(s.skip(1));
        assert(r =~~= seq![a.skip(1)] + split_dots(b));
        assert(r[0] == a.skip(1));
        assert(seq![s[0]] + r[0] =~= a);
        assert(r.skip(1) =~~= split_dots(b));
        lemma_split_dots_len(b);
        assert(split_dots(s) =~~= seq![a] + split_dots(b));
    }
}

/// The string form of a version: the three fields in decimal, separated by
/// dots.
pub open spec fn version_str_of(major: u32, minor: u32, patch: u32) -> Seq<char> {
    dec_str(major as nat) + seq!['.'] + dec_str(minor as nat) + seq!['.'] + dec_str(patch as nat)
}

/// The `i`-th dot-separated segment of `s`, reading missing segments as
/// `"0"`.
pub open spec fn padded_part(s: Seq<char>, i: int) -> Seq<char> {
    if i < split_dots(s).len() {
        split_dots(s)[i]
    } else {
        seq!['0']
    }
}

/// Whether a segment reads as a 32-bit number: non-empty, digits only, and
/// within range.
pub open spec fn part_ok(p: Seq<char>) -> bool {
    p.len() >= 1 && all_digits(p) && dec_val(p) <= u32::MAX
}

/// What parsing a version string yields: the first three dot-separated
/// segments read as numbers (missing segments read as zero, segments beyond
/// the third are ignored), or nothing if any of the three does not read as a
/// 32-bit number.
pub open spec fn version_parse(s: Seq<char>) -> Option<Version> {
    if part_ok(padded_part(s, 0)) && part_ok(padded_part(s, 1)) && part_ok(padded_part(s, 2)) {
        Some(
            Version {
                major: dec_val(padded_part(s, 0)) as u32,
                minor: dec_val(padded_part(s, 1)) as u32,
                patch: dec_val(padded_part(s, 2)) as u32,
            },
        )
    } else {
        None
    }
}

/// Relies on `String::push`: appends exactly the one given character.
#[verifier::external_body]
fn push_char(s: &mut String, c: char)
    ensures
        final(s)@ == old(s)@.push(c),
{
    s.push(c);
}

/// Splits `s` on `'.'` separators.
fn split_dots_exec(s: &str) -> (parts: Vec<String>)
    ensures
        parts@.len() == split_dots(s@).len(),
        forall|i: int| 0 <= i < parts@.len() ==> parts@[i]@ == split_dots(s@)[i],
{
    let len = s.unicode_len();
    let mut parts: Vec<String> = Vec::new();
    let mut cur = String::new();
    let mut i: usize = 0;
    proof {
        lemma_split_dots_len(s@);
        assert(s@.skip(0) =~= s@);
        let r = split_dots(s@);
        assert(r =~~= seq![r[0]] + r.skip(1));
        assert(parts@.map_values(|p: String| p@) + seq![cur@ + r[0]] + r.skip(1) =~~= r);
    }
    while i < len
        invariant
            0 <= i <= len,
            len == s@.len(),
            split_dots(s@.skip(i as int)).len() >= 1,
            split_dots(s@) =~~= parts@.map_values(|p: String| p@) + seq![
                cur@ + split_dots(s@.skip(i as int))[0],
            ] + split_dots(s@.skip(i as int)).skip(1),
        decreases len - i,
    {
        let ghost prev_parts = parts@;
        let ghost prev_cur = cur@;
        let ghost r_here = split_dots(s@.skip(i as int));
        let ghost r_next = split_dots(s@.skip(i as int + 1));
        let c = s.get_char(i);
        proof {
            assert(s@.skip(i as int)[0] == s@[i as int]);
            assert(s@.skip(i as int).skip(1) =~= s@.skip(i as int + 1));
            lemma_split_dots_len(s@.skip(i as int + 1));
        }
        if c == '.' {
            proof {
                assert(r_here =~~= seq![Seq::<char>::empty()] + r_next);
                assert(r_here[0] =~= Seq::<char>::empty());
                assert(r_here.skip(1) =~~= r_next);
            }
            let done = cur;
            cur = String::new();
            parts.push(done);
            proof {
                assert(parts@.map_values(|p: String| p@) =~= prev_parts.map_values(
                    |p: String| p@,
                ).push(done@));
                assert(r_next =~~= seq![r_next[0]] + r_next.skip(1));
                assert(prev_parts.map_values(|p: String| p@) + seq![prev_cur + r_here[0]]
                    + r_here.skip(1) =~~= parts@.map_values(|p: String| p@) + seq![
                    cur@ + r_next[0],
                ] + r_next.skip(1));
            }
        } else {
            proof {
                assert(r_here =~~= seq![seq![c] + r_next[0]] + r_next.skip(1));
                assert(r_here[0] =~= seq![c] + r_next[0]);
                assert(r_here.skip(1) =~~= r_next.skip(1));
            }
            push_char(&mut cur, c);
            proof {
                assert(cur@ + r_next[0] =~= prev_cur + r_here[0]);
                assert(prev_parts.map_values(|p: String| p@) + seq![prev_cur + r_here[0]]
                    + r_here.skip(1) =~~= parts@.map_values(|p: String| p@) + seq![
                    cur@ + r_next[0],
                ] + r_next.skip(1));
            }
        }
        i = i + 1;
    }
    let ghost prev_parts = parts@;
    proof {
        assert(s@.skip(len as int) =~= Seq::<char>::empty());
        assert(split_dots(s@.skip(len as int)) =~~= seq![Seq::<char>::empty()]);
        assert(split_dots(s@) =~~= prev_parts.map_values(|p: String| p@) + seq![cur@]);
    }
    parts.push(cur);
    proof {
        assert(parts@.map_values(|p: String| p@) =~= prev_parts.map_values(|p: String| p@).push(
            parts@.last()@,
        ));
        assert(split_dots(s@) =~~= parts@.map_values(|p: String| p@));
        assert(forall|i: int|
            0 <= i < parts@.len() ==> parts@[i]@ == parts@.map_values(|p: String| p@)[i]);
    }
    parts
}

impl Version {
    /// Renders the version as `"major.minor.patch"`.
    pub fn to_string(&self) -> (s: String)
        ensures
            s@ == version_str_of(self.major, self.minor, self.patch),
    {
        proof {
            reveal_strlit(".");
        }
        let mut s = u32_to_string(self.major);
        s.append(".");
        let minor = u32_to_string(self.minor);
        s.append(minor.as_str());
        s.append(".");
        let patch = u32_to_string(self.patch);
        s.append(patch.as_str());
        assert(s@ =~= version_str_of(self.major, self.minor, self.patch));
        s
    }

    /// Reads a version from its `"major.minor.patch"` string form.  Missing
    /// segments read as zero and segments beyond the third are ignored, as
    /// [`version_parse`] states.
    pub fn from_string(s: &str) -> (r: Option<Version>)
        ensures
            r == version_parse(s@),
    {
        proof {
            reveal_strlit("0");
            lemma_split_dots_len(s@);
        }
        let parts = split_dots_exec(s);
        let p0 = if parts.len() > 0 { parts[0].as_str() } else { "0" };
        let p1 = if parts.len() > 1 { parts[1].as_str() } else { "0" };
        let p2 = if parts.len() > 2 { parts[2].as_str() } else { "0" };
        assert(p0@ == padded_part(s@, 0));
        assert(p1@ == padded_part(s@, 1));
        assert(p2@ == padded_part(s@, 2));
        let major = match parse_u32(p0) {
            Some(n) => n,
            None => { return None; },
        };
        let minor = match parse_u32(p1) {
            Some(n) => n,
            None => { return None; },
        };
        let patch = match parse_u32(p2) {
            Some(n) => n,
            None => { return None; },
        };
        Some(Version { major, minor, patch })
    }
}

/// Round trip through the string form: rendering a version and parsing the
/// result gives the version back, so rendering again gives the same string.
pub proof fn lemma_string_round_trip(v: Version)
    ensures
        version_parse(version_str_of(v.major, v.minor, v.patch)) == Some(v),
{
    let ma = dec_str(v.major as nat);
    let mi = dec_str(v.minor as nat);
    let pa = dec_str(v.patch as nat);
    let s = version_str_of(v.major, v.minor, v.patch);
    lemma_dec_str_digits(v.major as nat);
    lemma_dec_str_digits(v.minor as nat);
    lemma_dec_str_digits(v.patch as nat);
    lemma_dec_val_of_dec_str(v.major as nat);
    lemma_dec_val_of_dec_str(v.minor as nat);
    lemma_dec_val_of_dec_str(v.patch as nat);
    assert(s =~= ma + seq!['.'] + (mi + seq!['.'] + pa));
    lemma_split_at_dot(ma, mi + seq!['.'] + pa);
    lemma_split_at_dot(mi, pa);
    lemma_split_no_dot(pa);
    assert(split_dots(s) =~~= seq![ma] + (seq![mi] + seq![pa]));
    assert(split_dots(s).len() == 3);
    assert(padded_part(s, 0) == ma);
    assert(padded_part(s, 1) == mi);
    assert(padded_part(s, 2) == pa);
}

/// Round trip through the packed form: a version whose fields fit their bit
/// widths is recovered exactly by unpacking its packed form.
pub proof fn lemma_pack_unpack(v: Version)
    requires
        v.major < 0x400,
        v.minor < 0x400,
        v.patch < 0x1000,
    ensures
        major_of(packed_of(v.major, v.minor, v.patch)) == v.major,
        minor_of(packed_of(v.major, v.minor, v.patch)) == v.minor,
        patch_of(packed_of(v.major, v.minor, v.patch)) == v.patch,
{
    let ma = v.major;
    let mi = v.minor;
    let pa = v.patch;
    assert(((((ma & 0x3ff) << 22) | ((mi & 0x3ff) << 12) | (pa & 0xfff)) >> 22) & 0x3ff == ma
        && ((((ma & 0x3ff) << 22) | ((mi & 0x3ff) << 12) | (pa & 0xfff)) >> 12) & 0x3ff == mi
        && ((((ma & 0x3ff) << 22) | ((mi & 0x3ff) << 12) | (pa & 0xfff)) & 0xfff) == pa)
        by (bit_vector)
        requires ma < 0x400, mi < 0x400, pa < 0x1000;
}

} // verus!
