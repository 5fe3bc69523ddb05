//! Capability flag sets reported by a backend (`PrismBackendFeature`).

use vstd::prelude::*;

use crate::feature_bits;
use crate::text::{hex_min_digits, push_hex_min, same_text};

verus! {

/// The number of named flags.
pub const FLAG_COUNT: usize = 29;

/// The name of the `i`-th defined flag, in declaration order.
pub open spec fn flag_name(i: int) -> Seq<char> {
    seq![
        "IS_SUPPORTED_AT_RUNTIME"@,
        "SUPPORTS_SPEAK"@,
        "SUPPORTS_SPEAK_TO_MEMORY"@,
        "SUPPORTS_BRAILLE"@,
        "SUPPORTS_OUTPUT"@,
        "SUPPORTS_IS_SPEAKING"@,
        "SUPPORTS_STOP"@,
        "SUPPORTS_PAUSE"@,
        "SUPPORTS_RESUME"@,
        "SUPPORTS_SET_VOLUME"@,
        "SUPPORTS_GET_VOLUME"@,
        "SUPPORTS_SET_RATE"@,
        "SUPPORTS_GET_RATE"@,
        "SUPPORTS_SET_PITCH"@,
        "SUPPORTS_GET_PITCH"@,
        "SUPPORTS_REFRESH_VOICES"@,
        "SUPPORTS_COUNT_VOICES"@,
        "SUPPORTS_GET_VOICE_NAME"@,
        "SUPPORTS_GET_VOICE_LANGUAGE"@,
        "SUPPORTS_GET_VOICE"@,
        "SUPPORTS_SET_VOICE"@,
        "SUPPORTS_GET_CHANNELS"@,
        "SUPPORTS_GET_SAMPLE_RATE"@,
        "SUPPORTS_GET_BIT_DEPTH"@,
        "PERFORMS_SILENCE_TRIMMING_ON_SPEAK"@,
        "PERFORMS_SILENCE_TRIMMING_ON_SPEAK_TO_MEMORY"@,
        "SUPPORTS_SPEAK_SSML"@,
        "SUPPORTS_SPEAK_TO_MEMORY_SSML"@,
        "FEATURE_MAX_BIT"@,
    ][i]
}

/// The bit of the `i`-th defined flag, in declaration order.
pub open spec fn flag_bit(i: int) -> u64 {
    seq![
        feature_bits::IS_SUPPORTED_AT_RUNTIME,
        feature_bits::SUPPORTS_SPEAK,
        feature_bits::SUPPORTS_SPEAK_TO_MEMORY,
        feature_bits::SUPPORTS_BRAILLE,
        feature_bits::SUPPORTS_OUTPUT,
        feature_bits::SUPPORTS_IS_SPEAKING,
        feature_bits::SUPPORTS_STOP,
        feature_bits::SUPPORTS_PAUSE,
        feature_bits::SUPPORTS_RESUME,
        feature_bits::SUPPORTS_SET_VOLUME,
        feature_bits::SUPPORTS_GET_VOLUME,
        feature_bits::SUPPORTS_SET_RATE,
        feature_bits::SUPPORTS_GET_RATE,
        feature_bits::SUPPORTS_SET_PITCH,
        feature_bits::SUPPORTS_GET_PITCH,
        feature_bits::SUPPORTS_REFRESH_VOICES,
        feature_bits::SUPPORTS_COUNT_VOICES,
        feature_bits::SUPPORTS_GET_VOICE_NAME,
        feature_bits::SUPPORTS_GET_VOICE_LANGUAGE,
        feature_bits::SUPPORTS_GET_VOICE,
        feature_bits::SUPPORTS_SET_VOICE,
        feature_bits::SUPPORTS_GET_CHANNELS,
        feature_bits::SUPPORTS_GET_SAMPLE_RATE,
        feature_bits::SUPPORTS_GET_BIT_DEPTH,
        feature_bits::PERFORMS_SILENCE_TRIMMING_ON_SPEAK,
        feature_bits::PERFORMS_SILENCE_TRIMMING_ON_SPEAK_TO_MEMORY,
        feature_bits::SUPPORTS_SPEAK_SSML,
        feature_bits::SUPPORTS_SPEAK_TO_MEMORY_SSML,
        feature_bits::FEATURE_MAX_BIT,
    ][i]
}

/// The name and bit of the `i`-th defined flag.
fn flag_entry(i: usize) -> (r: (&'static str, u64))
    requires
        i < FLAG_COUNT,
    ensures
        r.0@ == flag_name(i as int),
        r.1 == flag_bit(i as int),
{
    match i {
        0 => ("IS_SUPPORTED_AT_RUNTIME", feature_bits::IS_SUPPORTED_AT_RUNTIME),
        1 => ("SUPPORTS_SPEAK", feature_bits::SUPPORTS_SPEAK),
        2 => ("SUPPORTS_SPEAK_TO_MEMORY", feature_bits::SUPPORTS_SPEAK_TO_MEMORY),
        3 => ("SUPPORTS_BRAILLE", feature_bits::SUPPORTS_BRAILLE),
        4 => ("SUPPORTS_OUTPUT", feature_bits::SUPPORTS_OUTPUT),
        5 => ("SUPPORTS_IS_SPEAKING", feature_bits::SUPPORTS_IS_SPEAKING),
        6 => ("SUPPORTS_STOP", feature_bits::SUPPORTS_STOP),
        7 => ("SUPPORTS_PAUSE", feature_bits::SUPPORTS_PAUSE),
        8 => ("SUPPORTS_RESUME", feature_bits::SUPPORTS_RESUME),
        9 => ("SUPPORTS_SET_VOLUME", feature_bits::SUPPORTS_SET_VOLUME),
        10 => ("SUPPORTS_GET_VOLUME", feature_bits::SUPPORTS_GET_VOLUME),
        11 => ("SUPPORTS_SET_RATE", feature_bits::SUPPORTS_SET_RATE),
        12 => ("SUPPORTS_GET_RATE", feature_bits::SUPPORTS_GET_RATE),
        13 => ("SUPPORTS_SET_PITCH", feature_bits::SUPPORTS_SET_PITCH),
        14 => ("SUPPORTS_GET_PITCH", feature_bits::SUPPORTS_GET_PITCH),
        15 => ("SUPPORTS_REFRESH_VOICES", feature_bits::SUPPORTS_REFRESH_VOICES),
        16 => ("SUPPORTS_COUNT_VOICES", feature_bits::SUPPORTS_COUNT_VOICES),
        17 => ("SUPPORTS_GET_VOICE_NAME", feature_bits::SUPPORTS_GET_VOICE_NAME),
        18 => ("SUPPORTS_GET_VOICE_LANGUAGE", feature_bits::SUPPORTS_GET_VOICE_LANGUAGE),
        19 => ("SUPPORTS_GET_VOICE", feature_bits::SUPPORTS_GET_VOICE),
        20 => ("SUPPORTS_SET_VOICE", feature_bits::SUPPORTS_SET_VOICE),
        21 => ("SUPPORTS_GET_CHANNELS", feature_bits::SUPPORTS_GET_CHANNELS),
        22 => ("SUPPORTS_GET_SAMPLE_RATE", feature_bits::SUPPORTS_GET_SAMPLE_RATE),
        23 => ("SUPPORTS_GET_BIT_DEPTH", feature_bits::SUPPORTS_GET_BIT_DEPTH),
        24 => ("PERFORMS_SILENCE_TRIMMING_ON_SPEAK", feature_bits::PERFORMS_SILENCE_TRIMMING_ON_SPEAK),
        25 => ("PERFORMS_SILENCE_TRIMMING_ON_SPEAK_TO_MEMORY", feature_bits::PERFORMS_SILENCE_TRIMMING_ON_SPEAK_TO_MEMORY),
        26 => ("SUPPORTS_SPEAK_SSML", feature_bits::SUPPORTS_SPEAK_SSML),
        27 => ("SUPPORTS_SPEAK_TO_MEMORY_SSML", feature_bits::SUPPORTS_SPEAK_TO_MEMORY_SSML),
        _ => ("FEATURE_MAX_BIT", feature_bits::FEATURE_MAX_BIT),
    }
}

/// The positions, in declaration order, of the first `n` defined flags that
/// are set in `bits`.
pub open spec fn set_flags(bits: u64, n: nat) -> Seq<int>
    decreases n,
{
    if n == 0 {
        Seq::empty()
    } else {
        let earlier = set_flags(bits, (n - 1) as nat);
        if bits & flag_bit(n - 1) != 0 {
            earlier.push(n - 1)
        } else {
            earlier
        }
    }
}

/// The positions of every defined flag set in `bits`, in declaration order.
pub open spec fn contained_flags(bits: u64) -> Seq<int> {
    set_flags(bits, FLAG_COUNT as nat)
}

/// The bits of `bits` that no defined flag names.
pub open spec fn unnamed_bits(bits: u64) -> u64 {
    bits & !feature_bits::ALL
}

/// Texts joined with `" | "` between them.
pub open spec fn join_with_bars(parts: Seq<Seq<char>>) -> Seq<char>
    decreases parts.len(),
{
    if parts.len() == 0 {
        Seq::empty()
    } else if parts.len() == 1 {
        parts[0]
    } else {
        join_with_bars(parts.drop_last()) + " | "@ + parts.last()
    }
}

/// The text of a set: the names of its defined flags in declaration order,
/// then its unnamed bits as one `0x` hexadecimal number, all joined by
/// `" | "`; the empty set is `0x0`.
pub open spec fn flags_text(bits: u64) -> Seq<char> {
    if bits == 0 {
        "0x0"@
    } else {
        let names = contained_flags(bits).map_values(|i: int| flag_name(i));
        let parts = if unnamed_bits(bits) != 0 {
            names.push("0x"@ + hex_min_digits(unnamed_bits(bits) as nat))
        } else {
            names
        };
        join_with_bars(parts)
    }
}

/// Capability flags reported by a backend (`PrismBackendFeature`).
///
/// A set of bits: the defined flags are in [`crate::feature_bits`]; bits that
/// no flag names are kept as they are (see [`BackendFeatures::from_bits_retain`]).
/// A backend advertises which of its entry points are safe to call through
/// these flags.
#[derive(Debug, Clone, Copy, PartialEq, Eq, Hash, Structural)]
pub struct BackendFeatures {
    /// The raw bits of the set.
    pub bits: u64,
}

impl BackendFeatures {
    /// The set's text as its `Debug` form shows it:
    /// `BackendFeatures(<flags>)`, with the flags written as
    /// [`flags_text`] gives them.
    pub open spec fn debug_text(self) -> Seq<char> {
        "BackendFeatures("@ + flags_text(self.bits) + ")"@
    }

    /// The set's `Debug` text: the names of the set flags in declaration
    /// order and any unnamed bits as one hexadecimal number, joined by
    /// `" | "`, inside `BackendFeatures(...)`; the empty set shows `0x0`.
    pub fn debug_string(&self) -> (r: String)
        ensures
            r@ == self.debug_text(),
    {
        let mut out = String::from_str("BackendFeatures(");
        if self.bits == 0 {
            out.append("0x0");
        } else {
            let ghost start = out@;
            let mut first = true;
            let mut i: usize = 0;
            while i < FLAG_COUNT
                invariant
                    i <= FLAG_COUNT,
                    first == (set_flags(self.bits, i as nat).len() == 0),
                    out@ == start + join_with_bars(
                        set_flags(self.bits, i as nat).map_values(|k: int| flag_name(k)),
                    ),
                decreases FLAG_COUNT - i,
            {
                let (name, bit) = flag_entry(i);
                let ghost before = set_flags(self.bits, i as nat).map_values(|k: int| flag_name(k));
                if self.bits & bit != 0 {
                    if !first {
                        out.append(" | ");
                    }
                    out.append(name);
                    first = false;
                    proof {
                        let after = set_flags(self.bits, (i + 1) as nat).map_values(|k: int| flag_name(k));
                        assert(after =~= before.push(flag_name(i as int)));
                        assert(after.drop_last() =~= before);
                    }
                } else {
                    proof {
                        let after = set_flags(self.bits, (i + 1) as nat).map_values(|k: int| flag_name(k));
                        assert(after =~= before);
                    }
                }
                i = i + 1;
            }
            let rest = self.bits & !feature_bits::ALL;
            if rest != 0 {
                let ghost names = contained_flags(self.bits).map_values(|k: int| flag_name(k));
                if !first {
                    out.append(" | ");
                }
                out.append("0x");
                push_hex_min(&mut out, rest);
                proof {
                    let part = "0x"@ + hex_min_digits(rest as nat);
                    assert(names.push(part).drop_last() =~= names);
                    assert(out@ =~= start + join_with_bars(names.push(part)));
                }
            }
        }
        out.append(")");
        out
    }

    /// The defined flag named `name`, or `None` if no flag has that name.
    pub fn from_name(name: &str) -> (r: Option<BackendFeatures>)
        ensures
            r is None <==> forall|i: int| 0 <= i < FLAG_COUNT ==> flag_name(i) != name@,
            r matches Some(f) ==> exists|i: int|
                0 <= i < FLAG_COUNT && flag_name(i) == name@ && f.bits == flag_bit(i),
    {
        let mut i: usize = 0;
        while i < FLAG_COUNT
            invariant
                i <= FLAG_COUNT,
                forall|j: int| 0 <= j < i ==> flag_name(j) != name@,
            decreases FLAG_COUNT - i,
        {
            let (flag, bit) = flag_entry(i);
            if same_text(flag, name) {
                return Some(BackendFeatures { bits: bit });
            }
            i = i + 1;
        }
        None
    }

    /// The set's defined flags, in declaration order, each with its name.
    pub fn iter_names(&self) -> (r: Vec<(&'static str, BackendFeatures)>)
        ensures
            r@.len() == contained_flags(self.bits).len(),
            forall|k: int|
                0 <= k < r@.len() ==> (#[trigger] r@[k]).0@ == flag_name(contained_flags(self.bits)[k])
                    && r@[k].1.bits == flag_bit(contained_flags(self.bits)[k]),
    {
        let mut out: Vec<(&'static str, BackendFeatures)> = Vec::new();
        let mut i: usize = 0;
        while i < FLAG_COUNT
            invariant
                i <= FLAG_COUNT,
                out@.len() == set_flags(self.bits, i as nat).len(),
                forall|k: int|
                    0 <= k < out@.len() ==> (#[trigger] out@[k]).0@ == flag_name(
                        set_flags(self.bits, i as nat)[k],
                    ) && out@[k].1.bits == flag_bit(set_flags(self.bits, i as nat)[k]),
            decreases FLAG_COUNT - i,
        {
            let (name, bit) = flag_entry(i);
            if self.bits & bit != 0 {
                out.push((name, BackendFeatures { bits: bit }));
            }
            i = i + 1;
        }
        out
    }

    /// The set split into values: each defined flag it holds, in declaration
    /// order, then, if it holds bits that no flag names, one value with
    /// those bits.
    pub fn iter(&self) -> (r: Vec<BackendFeatures>)
        ensures
            r@.len() == contained_flags(self.bits).len() + if unnamed_bits(self.bits) != 0 {
                1int
            } else {
                0int
            },
            forall|k: int|
                0 <= k < contained_flags(self.bits).len() ==> (#[trigger] r@[k]).bits == flag_bit(
                    contained_flags(self.bits)[k],
                ),
            unnamed_bits(self.bits) != 0 ==> r@[r@.len() - 1].bits == unnamed_bits(self.bits),
    {
        let named = self.iter_names();
        let mut out: Vec<BackendFeatures> = Vec::new();
        let mut k: usize = 0;
        while k < named.len()
            invariant
                k <= named@.len(),
                named@.len() == contained_flags(self.bits).len(),
                out@.len() == k,
                forall|j: int|
                    0 <= j < named@.len() ==> (#[trigger] named@[j]).1.bits == flag_bit(
                        contained_flags(self.bits)[j],
                    ),
                forall|j: int| 0 <= j < k ==> (#[trigger] out@[j]).bits == named@[j].1.bits,
            decreases named@.len() - k,
        {
            out.push(named[k].1);
            k = k + 1;
        }
        let rest = self.bits & !feature_bits::ALL;
        if rest != 0 {
            out.push(BackendFeatures { bits: rest });
        }
        out
    }

    /// The raw bits of the set.
    pub open spec fn bits_of(self) -> u64 {
        self.bits
    }

    /// The set with no flags.
    pub fn empty() -> (r: BackendFeatures)
        ensures
            r.bits_of() == 0,
    {
        BackendFeatures { bits: 0 }
    }

    /// The set of every defined flag.
    pub fn all() -> (r: BackendFeatures)
        ensures
            r.bits_of() == feature_bits::ALL,
    {
        BackendFeatures { bits: feature_bits::ALL }
    }

    /// The raw bits of the set.
    pub fn bits(&self) -> (r: u64)
        ensures
            r == self.bits_of(),
    {
        self.bits
    }

    /// The set with exactly `bits`, or `None` if `bits` holds a bit that no
    /// flag defines.
    pub fn from_bits(bits: u64) -> (r: Option<BackendFeatures>)
        ensures
            r is Some <==> bits & feature_bits::ALL == bits,
            r matches Some(f) ==> f.bits_of() == bits,
    {
        let truncated = Self::from_bits_truncate(bits).bits;
        if truncated == bits {
            Some(BackendFeatures { bits })
        } else {
            None
        }
    }

    /// The set of the defined flags among `bits`; the other bits are dropped.
    pub fn from_bits_truncate(bits: u64) -> (r: BackendFeatures)
        ensures
            r.bits_of() == bits & feature_bits::ALL,
    {
        BackendFeatures { bits: bits & Self::all().bits }
    }

    /// The set with exactly `bits`, defined or not.
    pub fn from_bits_retain(bits: u64) -> (r: BackendFeatures)
        ensures
            r.bits_of() == bits,
    {
        BackendFeatures { bits }
    }

    /// Whether no bit is set.
    pub fn is_empty(&self) -> (r: bool)
        ensures
            r == (self.bits_of() == 0),
    {
        self.bits == 0
    }

    /// Whether every defined flag is set.
    pub fn is_all(&self) -> (r: bool)
        ensures
            r == (feature_bits::ALL | self.bits_of() == self.bits_of()),
    {
        Self::all().bits | self.bits == self.bits
    }

    /// Whether the two sets share a bit.
    pub fn intersects(&self, other: BackendFeatures) -> (r: bool)
        ensures
            r == (self.bits_of() & other.bits_of() != 0),
    {
        self.bits & other.bits != 0
    }

    /// Whether every bit of `other` is set in `self`.
    pub fn contains(&self, other: BackendFeatures) -> (r: bool)
        ensures
            r == (self.bits_of() & other.bits_of() == other.bits_of()),
    {
        self.bits & other.bits == other.bits
    }

    /// Set the bits of `other`.
    pub fn insert(&mut self, other: BackendFeatures)
        ensures
            final(self).bits_of() == old(self).bits_of() | other.bits_of(),
    {
        *self = BackendFeatures { bits: self.bits }.union(other);
    }

    /// Clear the bits of `other`.
    pub fn remove(&mut self, other: BackendFeatures)
        ensures
            final(self).bits_of() == old(self).bits_of() & !other.bits_of(),
    {
        *self = BackendFeatures { bits: self.bits }.difference(other);
    }

    /// Flip the bits of `other`.
    pub fn toggle(&mut self, other: BackendFeatures)
        ensures
            final(self).bits_of() == old(self).bits_of() ^ other.bits_of(),
    {
        *self = BackendFeatures { bits: self.bits }.symmetric_difference(other);
    }

    /// Set the bits of `other` when `value` holds, clear them otherwise.
    pub fn set(&mut self, other: BackendFeatures, value: bool)
        ensures
            value ==> final(self).bits_of() == old(self).bits_of() | other.bits_of(),
            !value ==> final(self).bits_of() == old(self).bits_of() & !other.bits_of(),
    {
        if value {
            self.insert(other);
        } else {
            self.remove(other);
        }
    }

    /// The bits set in both.
    pub fn intersection(self, other: BackendFeatures) -> (r: BackendFeatures)
        ensures
            r.bits_of() == self.bits_of() & other.bits_of(),
    {
        BackendFeatures { bits: self.bits & other.bits }
    }

    /// The bits set in either.
    pub fn union(self, other: BackendFeatures) -> (r: BackendFeatures)
        ensures
            r.bits_of() == self.bits_of() | other.bits_of(),
    {
        BackendFeatures { bits: self.bits | other.bits }
    }

    /// The bits of `self` that are not in `other`.
    pub fn difference(self, other: BackendFeatures) -> (r: BackendFeatures)
        ensures
            r.bits_of() == self.bits_of() & !other.bits_of(),
    {
        BackendFeatures { bits: self.bits & !other.bits }
    }

    /// The bits set in exactly one of the two.
    pub fn symmetric_difference(self, other: BackendFeatures) -> (r: BackendFeatures)
        ensures
            r.bits_of() == self.bits_of() ^ other.bits_of(),
    {
        BackendFeatures { bits: self.bits ^ other.bits }
    }

    /// The defined flags that are not set in `self`.
    pub fn complement(self) -> (r: BackendFeatures)
        ensures
            r.bits_of() == !self.bits_of() & feature_bits::ALL,
    {
        Self::from_bits_truncate(!self.bits)
    }
}

impl core::ops::BitOr for BackendFeatures {
    type Output = BackendFeatures;

    /// The union of two sets.
    fn bitor(self, other: BackendFeatures) -> (r: BackendFeatures) {
        self.union(other)
    }
}

impl vstd::std_specs::ops::BitOrSpecImpl for BackendFeatures {
    open spec fn obeys_bitor_spec() -> bool {
        true
    }

    open spec fn bitor_req(self, other: BackendFeatures) -> bool {
        true
    }

    open spec fn bitor_spec(self, other: BackendFeatures) -> BackendFeatures {
        BackendFeatures { bits: self.bits | other.bits }
    }
}

impl core::ops::BitAnd for BackendFeatures {
    type Output = BackendFeatures;

    /// The intersection of two sets.
    fn bitand(self, other: BackendFeatures) -> (r: BackendFeatures) {
        self.intersection(other)
    }
}

impl vstd::std_specs::ops::BitAndSpecImpl for BackendFeatures {
    open spec fn obeys_bitand_spec() -> bool {
        true
    }

    open spec fn bitand_req(self, other: BackendFeatures) -> bool {
        true
    }

    open spec fn bitand_spec(self, other: BackendFeatures) -> BackendFeatures {
        BackendFeatures { bits: self.bits & other.bits }
    }
}

impl core::ops::BitXor for BackendFeatures {
    type Output = BackendFeatures;

    /// The symmetric difference of two sets.
    fn bitxor(self, other: BackendFeatures) -> (r: BackendFeatures) {
        self.symmetric_difference(other)
    }
}

impl vstd::std_specs::ops::BitXorSpecImpl for BackendFeatures {
    open spec fn obeys_bitxor_spec() -> bool {
        true
    }

    open spec fn bitxor_req(self, other: BackendFeatures) -> bool {
        true
    }

    open spec fn bitxor_spec(self, other: BackendFeatures) -> BackendFeatures {
        BackendFeatures { bits: self.bits ^ other.bits }
    }
}

impl core::ops::Not for BackendFeatures {
    type Output = BackendFeatures;

    /// The complement of a set: the defined flags it does not hold.
    fn not(self) -> (r: BackendFeatures) {
        self.complement()
    }
}

impl vstd::std_specs::ops::NotSpecImpl for BackendFeatures {
    open spec fn obeys_not_spec() -> bool {
        true
    }

    open spec fn not_req(self) -> bool {
        true
    }

    open spec fn not_spec(self) -> BackendFeatures {
        BackendFeatures { bits: !self.bits & feature_bits::ALL }
    }
}

impl core::ops::BitOrAssign for BackendFeatures {
    /// Add the flags of `other`.
    fn bitor_assign(&mut self, other: BackendFeatures)
        ensures
            final(self).bits == old(self).bits | other.bits,
    {
        self.insert(other);
    }
}

impl core::ops::BitAndAssign for BackendFeatures {
    /// Keep only the flags also in `other`.
    fn bitand_assign(&mut self, other: BackendFeatures)
        ensures
            final(self).bits == old(self).bits & other.bits,
    {
        *self = self.intersection(other);
    }
}

impl core::ops::BitXorAssign for BackendFeatures {
    /// Flip the flags of `other`.
    fn bitxor_assign(&mut self, other: BackendFeatures)
        ensures
            final(self).bits == old(self).bits ^ other.bits,
    {
        self.toggle(other);
    }
}

impl core::ops::SubAssign for BackendFeatures {
    /// Remove the flags of `other`.
    fn sub_assign(&mut self, other: BackendFeatures)
        ensures
            final(self).bits == old(self).bits & !other.bits,
    {
        self.remove(other);
    }
}

impl core::ops::Sub for BackendFeatures {
    type Output = BackendFeatures;

    /// The difference of two sets.
    fn sub(self, other: BackendFeatures) -> (r: BackendFeatures) {
        self.difference(other)
    }
}

impl vstd::std_specs::ops::SubSpecImpl for BackendFeatures {
    open spec fn obeys_sub_spec() -> bool {
        true
    }

    open spec fn sub_req(self, other: BackendFeatures) -> bool {
        true
    }

    open spec fn sub_spec(self, other: BackendFeatures) -> BackendFeatures {
        BackendFeatures { bits: self.bits & !other.bits }
    }
}

/// The capability flags as the C header lists them, in declaration order:
/// each flag's name with the position of its bit.
pub open spec fn header_flags() -> Seq<(Seq<char>, nat)> {
    seq![
        ("IS_SUPPORTED_AT_RUNTIME"@, 0nat),
        ("SUPPORTS_SPEAK"@, 2nat),
        ("SUPPORTS_SPEAK_TO_MEMORY"@, 3nat),
        ("SUPPORTS_BRAILLE"@, 4nat),
        ("SUPPORTS_OUTPUT"@, 5nat),
        ("SUPPORTS_IS_SPEAKING"@, 6nat),
        ("SUPPORTS_STOP"@, 7nat),
        ("SUPPORTS_PAUSE"@, 8nat),
        ("SUPPORTS_RESUME"@, 9nat),
        ("SUPPORTS_SET_VOLUME"@, 10nat),
        ("SUPPORTS_GET_VOLUME"@, 11nat),
        ("SUPPORTS_SET_RATE"@, 12nat),
        ("SUPPORTS_GET_RATE"@, 13nat),
        ("SUPPORTS_SET_PITCH"@, 14nat),
        ("SUPPORTS_GET_PITCH"@, 15nat),
        ("SUPPORTS_REFRESH_VOICES"@, 16nat),
        ("SUPPORTS_COUNT_VOICES"@, 17nat),
        ("SUPPORTS_GET_VOICE_NAME"@, 18nat),
        ("SUPPORTS_GET_VOICE_LANGUAGE"@, 19nat),
        ("SUPPORTS_GET_VOICE"@, 20nat),
        ("SUPPORTS_SET_VOICE"@, 21nat),
        ("SUPPORTS_GET_CHANNELS"@, 22nat),
        ("SUPPORTS_GET_SAMPLE_RATE"@, 23nat),
        ("SUPPORTS_GET_BIT_DEPTH"@, 24nat),
        ("PERFORMS_SILENCE_TRIMMING_ON_SPEAK"@, 25nat),
        ("PERFORMS_SILENCE_TRIMMING_ON_SPEAK_TO_MEMORY"@, 26nat),
        ("SUPPORTS_SPEAK_SSML"@, 27nat),
        ("SUPPORTS_SPEAK_TO_MEMORY_SSML"@, 28nat),
        ("FEATURE_MAX_BIT"@, 63nat),
    ]
}

/// Every flag is paired with the bit the header gives it: the `i`-th flag's
/// name is the header's `i`-th name, and its bit is the single bit at the
/// header's `i`-th position.
pub proof fn lemma_flags_match_header()
    ensures
        header_flags().len() == FLAG_COUNT,
        forall|i: int|
            #![trigger header_flags()[i]]
            0 <= i < FLAG_COUNT ==> flag_name(i) == header_flags()[i].0 && flag_bit(i) as nat
                == vstd::arithmetic::power2::pow2(header_flags()[i].1),
{
    let t = header_flags();
    vstd::arithmetic::power2::lemma2_to64();
    vstd::arithmetic::power2::lemma2_to64_rest();
    assert forall|i: int| 0 <= i < FLAG_COUNT implies flag_name(i) == t[i].0 && flag_bit(i) as nat
        == vstd::arithmetic::power2::pow2(t[i].1) by {
        if i == 0 {
            assert(flag_name(0) == t[0].0);
            assert(feature_bits::IS_SUPPORTED_AT_RUNTIME == 1u64) by (bit_vector);
            assert(flag_bit(0) as nat == vstd::arithmetic::power2::pow2(t[0].1));
        } else if i == 1 {
            assert(flag_name(1) == t[1].0);
            assert(feature_bits::SUPPORTS_SPEAK == 4u64) by (bit_vector);
            assert(flag_bit(1) as nat == vstd::arithmetic::power2::pow2(t[1].1));
        } else if i == 2 {
            assert(flag_name(2) == t[2].0);
            assert(feature_bits::SUPPORTS_SPEAK_TO_MEMORY == 8u64) by (bit_vector);
            assert(flag_bit(2) as nat == vstd::arithmetic::power2::pow2(t[2].1));
        } else if i == 3 {
            assert(flag_name(3) == t[3].0);
            assert(feature_bits::SUPPORTS_BRAILLE == 16u64) by (bit_vector);
            assert(flag_bit(3) as nat == vstd::arithmetic::power2::pow2(t[3].1));
        } else if i == 4 {
            assert(flag_name(4) == t[4].0);
            assert(feature_bits::SUPPORTS_OUTPUT == 32u64) by (bit_vector);
            assert(flag_bit(4) as nat == vstd::arithmetic::power2::pow2(t[4].1));
        } else if i == 5 {
            assert(flag_name(5) == t[5].0);
            assert(feature_bits::SUPPORTS_IS_SPEAKING == 64u64) by (bit_vector);
            assert(flag_bit(5) as nat == vstd::arithmetic::power2::pow2(t[5].1));
        } else if i == 6 {
            assert(flag_name(6) == t[6].0);
            assert(feature_bits::SUPPORTS_STOP == 128u64) by (bit_vector);
            assert(flag_bit(6) as nat == vstd::arithmetic::power2::pow2(t[6].1));
        } else if i == 7 {
            assert(flag_name(7) == t[7].0);
            assert(feature_bits::SUPPORTS_PAUSE == 256u64) by (bit_vector);
            assert(flag_bit(7) as nat == vstd::arithmetic::power2::pow2(t[7].1));
        } else if i == 8 {
            assert(flag_name(8) == t[8].0);
            assert(feature_bits::SUPPORTS_RESUME == 512u64) by (bit_vector);
            assert(flag_bit(8) as nat == vstd::arithmetic::power2::pow2(t[8].1));
        } else if i == 9 {
            assert(flag_name(9) == t[9].0);
            assert(feature_bits::SUPPORTS_SET_VOLUME == 1024u64) by (bit_vector);
            assert(flag_bit(9) as nat == vstd::arithmetic::power2::pow2(t[9].1));
        } else if i == 10 {
            assert(flag_name(10) == t[10].0);
            assert(feature_bits::SUPPORTS_GET_VOLUME == 2048u64) by (bit_vector);
            assert(flag_bit(10) as nat == vstd::arithmetic::power2::pow2(t[10].1));
        } else if i == 11 {
            assert(flag_name(11) == t[11].0);
            assert(feature_bits::SUPPORTS_SET_RATE == 4096u64) by (bit_vector);
            assert(flag_bit(11) as nat == vstd::arithmetic::power2::pow2(t[11].1));
        } else if i == 12 {
            assert(flag_name(12) == t[12].0);
            assert(feature_bits::SUPPORTS_GET_RATE == 8192u64) by (bit_vector);
            assert(flag_bit(12) as nat == vstd::arithmetic::power2::pow2(t[12].1));
        } else if i == 13 {
            assert(flag_name(13) == t[13].0);
            assert(feature_bits::SUPPORTS_SET_PITCH == 16384u64) by (bit_vector);
            assert(flag_bit(13) as nat == vstd::arithmetic::power2::pow2(t[13].1));
        } else if i == 14 {
            assert(flag_name(14) == t[14].0);
            assert(feature_bits::SUPPORTS_GET_PITCH == 32768u64) by (bit_vector);
            assert(flag_bit(14) as nat == vstd::arithmetic::power2::pow2(t[14].1));
        } else if i == 15 {
            assert(flag_name(15) == t[15].0);
            assert(feature_bits::SUPPORTS_REFRESH_VOICES == 65536u64) by (bit_vector);
            assert(flag_bit(15) as nat == vstd::arithmetic::power2::pow2(t[15].1));
        } else if i == 16 {
            assert(flag_name(16) == t[16].0);
            assert(feature_bits::SUPPORTS_COUNT_VOICES == 131072u64) by (bit_vector);
            assert(flag_bit(16) as nat == vstd::arithmetic::power2::pow2(t[16].1));
        } else if i == 17 {
            assert(flag_name(17) == t[17].0);
            assert(feature_bits::SUPPORTS_GET_VOICE_NAME == 262144u64) by (bit_vector);
            assert(flag_bit(17) as nat == vstd::arithmetic::power2::pow2(t[17].1));
        } else if i == 18 {
            assert(flag_name(18) == t[18].0);
            assert(feature_bits::SUPPORTS_GET_VOICE_LANGUAGE == 524288u64) by (bit_vector);
            assert(flag_bit(18) as nat == vstd::arithmetic::power2::pow2(t[18].1));
        } else if i == 19 {
            assert(flag_name(19) == t[19].0);
            assert(feature_bits::SUPPORTS_GET_VOICE == 1048576u64) by (bit_vector);
            assert(flag_bit(19) as nat == vstd::arithmetic::power2::pow2(t[19].1));
        } else if i == 20 {
            assert(flag_name(20) == t[20].0);
            assert(feature_bits::SUPPORTS_SET_VOICE == 2097152u64) by (bit_vector);
            assert(flag_bit(20) as nat == vstd::arithmetic::power2::pow2(t[20].1));
        } else if i == 21 {
            assert(flag_name(21) == t[21].0);
            assert(feature_bits::SUPPORTS_GET_CHANNELS == 4194304u64) by (bit_vector);
            assert(flag_bit(21) as nat == vstd::arithmetic::power2::pow2(t[21].1));
        } else if i == 22 {
            assert(flag_name(22) == t[22].0);
            assert(feature_bits::SUPPORTS_GET_SAMPLE_RATE == 8388608u64) by (bit_vector);
            assert(flag_bit(22) as nat == vstd::arithmetic::power2::pow2(t[22].1));
        } else if i == 23 {
            assert(flag_name(23) == t[23].0);
            assert(feature_bits::SUPPORTS_GET_BIT_DEPTH == 16777216u64) by (bit_vector);
            assert(flag_bit(23) as nat == vstd::arithmetic::power2::pow2(t[23].1));
        } else if i == 24 {
            assert(flag_name(24) == t[24].0);
            assert(feature_bits::PERFORMS_SILENCE_TRIMMING_ON_SPEAK == 33554432u64) by (bit_vector);
            assert(flag_bit(24) as nat == vstd::arithmetic::power2::pow2(t[24].1));
        } else if i == 25 {
            assert(flag_name(25) == t[25].0);
            assert(feature_bits::PERFORMS_SILENCE_TRIMMING_ON_SPEAK_TO_MEMORY == 67108864u64) by (bit_vector);
            assert(flag_bit(25) as nat == vstd::arithmetic::power2::pow2(t[25].1));
        } else if i == 26 {
            assert(flag_name(26) == t[26].0);
            assert(feature_bits::SUPPORTS_SPEAK_SSML == 134217728u64) by (bit_vector);
            assert(flag_bit(26) as nat == vstd::arithmetic::power2::pow2(t[26].1));
        } else if i == 27 {
            assert(flag_name(27) == t[27].0);
            assert(feature_bits::SUPPORTS_SPEAK_TO_MEMORY_SSML == 268435456u64) by (bit_vector);
            assert(flag_bit(27) as nat == vstd::arithmetic::power2::pow2(t[27].1));
        } else {
            assert(flag_name(28) == t[28].0);
            assert(feature_bits::FEATURE_MAX_BIT == 9223372036854775808u64) by (bit_vector);
            assert(flag_bit(28) as nat == vstd::arithmetic::power2::pow2(t[28].1));
        }
    }
}

/// The sum of the bits at the first `n` positions the header lists.
pub open spec fn header_mask(n: nat) -> nat
    decreases n,
{
    if n == 0 {
        0
    } else {
        header_mask((n - 1) as nat) + vstd::arithmetic::power2::pow2(header_flags()[n - 1].1)
    }
}

/// `all()` holds exactly the header's flags: its bits are the bits at the
/// header's (distinct) positions and nothing else.
pub proof fn lemma_all_is_header_flags()
    ensures
        feature_bits::ALL as nat == header_mask(FLAG_COUNT as nat),
        forall|i: int, j: int|
            0 <= i < j < FLAG_COUNT ==> header_flags()[i].1 < header_flags()[j].1,
{
    vstd::arithmetic::power2::lemma2_to64();
    vstd::arithmetic::power2::lemma2_to64_rest();
    assert(feature_bits::ALL == 9223372037391646717u64) by (bit_vector);
    reveal_with_fuel(header_mask, 30);
}

/// The listed flags of a set are exactly the defined flags it holds, each
/// once, in declaration order: every listed position is below `n` and its
/// flag is set, every set flag below `n` is listed, and positions increase.
pub proof fn lemma_set_flags_are_held_flags(bits: u64, n: nat)
    requires
        n <= FLAG_COUNT,
    ensures
        forall|k: int|
            0 <= k < set_flags(bits, n).len() ==> 0 <= #[trigger] set_flags(bits, n)[k] < n
                && bits & flag_bit(set_flags(bits, n)[k]) != 0,
        forall|i: int|
            0 <= i < n && bits & flag_bit(i) != 0 ==> #[trigger] set_flags(bits, n).contains(i),
        forall|k: int, m: int|
            0 <= k < m < set_flags(bits, n).len() ==> set_flags(bits, n)[k] < set_flags(bits, n)[m],
    decreases n,
{
    if n > 0 {
        lemma_set_flags_are_held_flags(bits, (n - 1) as nat);
        let earlier = set_flags(bits, (n - 1) as nat);
        let now = set_flags(bits, n);
        assert forall|i: int| 0 <= i < n && bits & flag_bit(i) != 0 implies now.contains(i) by {
            if i < n - 1 {
                assert(earlier.contains(i));
                let k = choose|k: int| 0 <= k < earlier.len() && earlier[k] == i;
                assert(now[k] == i);
            } else {
                assert(now[now.len() - 1] == i);
            }
        }
    }
}

/// A union holds both of its parts: `(a | b).contains(a)` and
/// `(a | b).contains(b)`.
pub proof fn lemma_union_contains_parts(a: BackendFeatures, b: BackendFeatures)
    ensures
        (a.bits_of() | b.bits_of()) & a.bits_of() == a.bits_of(),
        (a.bits_of() | b.bits_of()) & b.bits_of() == b.bits_of(),
{
    let (x, y) = (a.bits_of(), b.bits_of());
    assert((x | y) & x == x && (x | y) & y == y) by (bit_vector);
}

/// A difference keeps nothing of what it removes, and holds only bits of its
/// first operand: `a.difference(b)` does not intersect `b` (when `b` is not
/// empty it does not contain it) and `a` contains it.
pub proof fn lemma_difference_disjoint(a: BackendFeatures, b: BackendFeatures)
    ensures
        (a.bits_of() & !b.bits_of()) & b.bits_of() == 0,
        a.bits_of() & (a.bits_of() & !b.bits_of()) == (a.bits_of() & !b.bits_of()),
{
    let (x, y) = (a.bits_of(), b.bits_of());
    assert((x & !y) & y == 0 && x & (x & !y) == (x & !y)) by (bit_vector);
}

/// Containment is reflexive and transitive.
pub proof fn lemma_contains_preorder(a: BackendFeatures, b: BackendFeatures, c: BackendFeatures)
    ensures
        a.bits_of() & a.bits_of() == a.bits_of(),
        (a.bits_of() & b.bits_of() == b.bits_of() && b.bits_of() & c.bits_of() == c.bits_of()) ==> a.bits_of() & c.bits_of() == c.bits_of(),
{
    let (x, y, z) = (a.bits_of(), b.bits_of(), c.bits_of());
    assert(x & x == x) by (bit_vector);
    assert((x & y == y && y & z == z) ==> x & z == z) by (bit_vector);
}

/// Truncating gives a set that `all()` contains, and truncating a second time
/// changes nothing.
pub proof fn lemma_truncate_within_all(bits: u64)
    ensures
        (bits & feature_bits::ALL) & feature_bits::ALL == bits & feature_bits::ALL,
        feature_bits::ALL & (bits & feature_bits::ALL) == bits & feature_bits::ALL,
{
    let (x, y) = (bits, feature_bits::ALL);
    assert((x & y) & y == x & y && y & (x & y) == x & y) by (bit_vector);
}

/// The complement of the complement is the truncation: applying
/// `complement` twice keeps the defined flags of the set and drops the rest.
pub proof fn lemma_complement_twice(a: BackendFeatures)
    ensures
        !(!a.bits_of() & feature_bits::ALL) & feature_bits::ALL == a.bits_of() & feature_bits::ALL,
{
    let (x, y) = (a.bits_of(), feature_bits::ALL);
    assert(!(!x & y) & y == x & y) by (bit_vector);
}

} // verus!
