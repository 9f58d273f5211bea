//! Analysis type flags, image orientations and the analyzer configuration.
use vstd::prelude::*;
use vstd::std_specs::ops::BitOrSpecImpl;
use vstd::relations::sorted_by;

use crate::error::{VisionKitError, VisionKitErrorView};
use crate::json::{decode_failure, decode_string_list, json_string_list};
use crate::bridge::{missing_response_message, require_bridge_string};
use crate::status::{error_from_status, failure_message, option_text, status_error, OK};
use crate::text_order::{sort_texts, string_views, text_order};

verus! {

/// Flag bits that no named [`ImageAnalysisTypes`] value stands for.
#[derive(Debug, Clone, Copy, PartialEq, Eq, Hash, Structural)]
pub struct OtherAnalysisBits(u64);

impl OtherAnalysisBits {
    /// The flag bits held.
    pub closed spec fn value(self) -> u64 {
        self.0
    }

    /// The holder of flag bits `raw`.
    pub closed spec fn holding(raw: u64) -> Self {
        OtherAnalysisBits(raw)
    }

    /// Holding bits and reading them back gives the same bits.
    pub proof fn lemma_holding_value(raw: u64)
        ensures
            Self::holding(raw).value() == raw,
    {
    }

    #[verifier::type_invariant]
    closed spec fn unnamed(self) -> bool {
        !is_named_analysis_bits(self.0)
    }
}

/// Whether `b` is the value of one of the named analysis type sets.
pub open spec fn is_named_analysis_bits(b: u64) -> bool {
    b == 0 || b == 1 || b == 2 || b == 4 || b == 7
}

/// A set of VisionKit analysis types, held as bit flags.
///
/// The named sets are variants; any other combination of flags is held in
/// [`ImageAnalysisTypes::Other`], so each set of flags has exactly one form.
#[allow(non_camel_case_types)]
#[derive(Debug, Clone, Copy, PartialEq, Eq, Hash, Structural)]
pub enum ImageAnalysisTypes {
    /// No analysis.
    NONE,
    /// Text recognition.
    TEXT,
    /// Machine-readable codes.
    MACHINE_READABLE_CODE,
    /// Visual look-up.
    VISUAL_LOOK_UP,
    /// Text, machine-readable codes and visual look-up.
    ALL,
    /// Any other combination of flags.
    Other(OtherAnalysisBits),
}

impl View for ImageAnalysisTypes {
    type V = u64;

    open spec fn view(&self) -> u64 {
        match self {
            ImageAnalysisTypes::NONE => 0,
            ImageAnalysisTypes::TEXT => 1,
            ImageAnalysisTypes::MACHINE_READABLE_CODE => 2,
            ImageAnalysisTypes::VISUAL_LOOK_UP => 4,
            ImageAnalysisTypes::ALL => 7,
            ImageAnalysisTypes::Other(b) => b.value(),
        }
    }
}

/// `a` holds every flag of `b`.
pub open spec fn bits_contain(a: u64, b: u64) -> bool {
    a & b == b
}

/// Containment is the subset test on flag bits: `a` contains `b` exactly
/// when adding the flags of `b` to `a` changes nothing, and a set that
/// shares no flag with a non-empty `b` does not contain it.
pub proof fn lemma_bits_contain_is_subset(a: u64, b: u64)
    ensures
        bits_contain(a, b) <==> (a | b) == a,
        (a & b) == 0 && b != 0 ==> !bits_contain(a, b),
{
    assert(((a & b) == b) <==> ((a | b) == a)) by (bit_vector);
    assert(((a & b) == 0u64 && b != 0u64) ==> (a & b) != b) by (bit_vector);
}

impl ImageAnalysisTypes {
    /// The set with flag bits `raw`.
    pub open spec fn from_bits(raw: u64) -> Self {
        if raw == 0 {
            ImageAnalysisTypes::NONE
        } else if raw == 1 {
            ImageAnalysisTypes::TEXT
        } else if raw == 2 {
            ImageAnalysisTypes::MACHINE_READABLE_CODE
        } else if raw == 4 {
            ImageAnalysisTypes::VISUAL_LOOK_UP
        } else if raw == 7 {
            ImageAnalysisTypes::ALL
        } else {
            ImageAnalysisTypes::Other(OtherAnalysisBits::holding(raw))
        }
    }

    /// The set holding the flags of both `self` and `other`.
    pub open spec fn union(self, other: Self) -> Self {
        Self::from_bits(self@ | other@)
    }

    /// Wraps raw flag bits.
    pub fn new(raw: u64) -> (t: Self)
        ensures
            t@ == raw,
            t == Self::from_bits(raw),
    {
        if raw == 0 {
            ImageAnalysisTypes::NONE
        } else if raw == 1 {
            ImageAnalysisTypes::TEXT
        } else if raw == 2 {
            ImageAnalysisTypes::MACHINE_READABLE_CODE
        } else if raw == 4 {
            ImageAnalysisTypes::VISUAL_LOOK_UP
        } else if raw == 7 {
            ImageAnalysisTypes::ALL
        } else {
            ImageAnalysisTypes::Other(OtherAnalysisBits(raw))
        }
    }

    /// The raw flag bits. A set is the one its bits stand for: two sets
    /// are equal exactly when their bits are.
    pub fn bits(self) -> (b: u64)
        ensures
            b == self@,
            self == Self::from_bits(b),
    {
        if let ImageAnalysisTypes::Other(o) = self {
            proof {
                use_type_invariant(&o);
            }
        }
        match self {
            ImageAnalysisTypes::NONE => 0,
            ImageAnalysisTypes::TEXT => 1,
            ImageAnalysisTypes::MACHINE_READABLE_CODE => 2,
            ImageAnalysisTypes::VISUAL_LOOK_UP => 4,
            ImageAnalysisTypes::ALL => 7,
            ImageAnalysisTypes::Other(b) => b.0,
        }
    }

    /// Whether every flag of `other` is set in `self`.
    pub fn contains(self, other: Self) -> (b: bool)
        ensures
            b == bits_contain(self@, other@),
    {
        let mine = self.bits();
        let theirs = other.bits();
        (mine & theirs) == theirs
    }
}

impl core::ops::BitOr for ImageAnalysisTypes {
    type Output = Self;

    fn bitor(self, rhs: Self) -> (r: Self) {
        Self::new(self.bits() | rhs.bits())
    }
}

impl core::ops::BitOrAssign for ImageAnalysisTypes {
    fn bitor_assign(&mut self, rhs: Self)
        ensures
            *final(self) == old(self).union(rhs),
    {
        *self = Self::new(self.bits() | rhs.bits());
    }
}

impl Default for ImageAnalysisTypes {
    fn default() -> (t: Self)
        ensures
            t == ImageAnalysisTypes::NONE,
    {
        ImageAnalysisTypes::NONE
    }
}

impl BitOrSpecImpl for ImageAnalysisTypes {
    open spec fn obeys_bitor_spec() -> bool {
        true
    }

    open spec fn bitor_req(self, rhs: Self) -> bool {
        true
    }

    open spec fn bitor_spec(self, rhs: Self) -> Self {
        self.union(rhs)
    }
}

impl ImageAnalysisTypes {
    /// Converting flag bits to a set and back gives the same bits.
    pub proof fn lemma_from_bits_view(raw: u64)
        ensures
            Self::from_bits(raw)@ == raw,
    {
        OtherAnalysisBits::lemma_holding_value(raw);
    }

    /// The union of two sets holds exactly the flags of either, contains
    /// both, and is the same in either order.
    pub proof fn lemma_union(a: Self, b: Self)
        ensures
            a.union(b)@ == a@ | b@,
            bits_contain(a.union(b)@, a@),
            bits_contain(a.union(b)@, b@),
            a.union(b) == b.union(a),
    {
        let x = a@;
        let y = b@;
        Self::lemma_from_bits_view(x | y);
        assert(((x | y) & x) == x && ((x | y) & y) == y && (x | y) == (y | x)) by (bit_vector);
    }

    /// A set contains another exactly when their union is the first set
    /// again, and it contains a single analysis type exactly when it holds
    /// that type's flag.
    pub proof fn lemma_contains_is_subset(a: Self, b: Self)
        ensures
            bits_contain(a@, b@) <==> a.union(b)@ == a@,
            bits_contain(a@, Self::TEXT@) <==> (a@ & 1) != 0,
            bits_contain(a@, Self::MACHINE_READABLE_CODE@) <==> (a@ & 2) != 0,
            bits_contain(a@, Self::VISUAL_LOOK_UP@) <==> (a@ & 4) != 0,
    {
        let x = a@;
        let y = b@;
        Self::lemma_from_bits_view(x | y);
        lemma_bits_contain_is_subset(x, y);
        assert(((x & 1u64) == 1u64) <==> ((x & 1u64) != 0u64)) by (bit_vector);
        assert(((x & 2u64) == 2u64) <==> ((x & 2u64) != 0u64)) by (bit_vector);
        assert(((x & 4u64) == 4u64) <==> ((x & 4u64) != 0u64)) by (bit_vector);
    }

    /// Adding a set's own flags to it changes nothing.
    pub proof fn lemma_union_idempotent(a: Self)
        ensures
            a.union(a)@ == a@,
    {
        let x = a@;
        Self::lemma_from_bits_view(x | x);
        assert((x | x) == x) by (bit_vector);
    }

    /// Taking unions in either grouping gives the same set.
    pub proof fn lemma_union_associative(a: Self, b: Self, c: Self)
        ensures
            a.union(b).union(c) == a.union(b.union(c)),
    {
        let x = a@;
        let y = b@;
        let z = c@;
        Self::lemma_from_bits_view(x | y);
        Self::lemma_from_bits_view(y | z);
        assert(((x | y) | z) == (x | (y | z))) by (bit_vector);
    }

    /// Every set contains itself and the empty set; containment is
    /// transitive.
    pub proof fn lemma_contains_order(a: Self, b: Self, c: Self)
        ensures
            bits_contain(a@, a@),
            bits_contain(a@, Self::NONE@),
            bits_contain(a@, b@) && bits_contain(b@, c@) ==> bits_contain(a@, c@),
    {
        let x = a@;
        let y = b@;
        let z = c@;
        assert((x & x) == x && (x & 0) == 0u64) by (bit_vector);
        assert(((x & y) == y && (y & z) == z) ==> (x & z) == z) by (bit_vector);
    }

    /// The set of every analysis type is the union of the three single types.
    pub proof fn lemma_all_is_every_type()
        ensures
            Self::ALL@ == Self::TEXT@ | Self::MACHINE_READABLE_CODE@ | Self::VISUAL_LOOK_UP@,
            bits_contain(Self::ALL@, Self::TEXT@),
            bits_contain(Self::ALL@, Self::MACHINE_READABLE_CODE@),
            bits_contain(Self::ALL@, Self::VISUAL_LOOK_UP@),
    {
        assert((1u64 | 2u64 | 4u64) == 7u64 && (7u64 & 1u64) == 1u64 && (7u64 & 2u64) == 2u64
            && (7u64 & 4u64) == 4u64) by (bit_vector);
    }
}

/// The orientation of an analyzed image, as in `CGImagePropertyOrientation`.
#[derive(Debug, Clone, Copy, PartialEq, Eq, Hash, Structural)]
pub enum ImageOrientation {
    /// The image is upright.
    Up,
    /// Mirrored horizontally.
    UpMirrored,
    /// Rotated 180 degrees.
    Down,
    /// Mirrored vertically.
    DownMirrored,
    /// Mirrored and rotated 90 degrees counter-clockwise.
    LeftMirrored,
    /// Rotated 90 degrees clockwise.
    Right,
    /// Mirrored and rotated 90 degrees clockwise.
    RightMirrored,
    /// Rotated 90 degrees counter-clockwise.
    Left,
}

impl ImageOrientation {
    /// The `CGImagePropertyOrientation` value of an orientation.
    pub open spec fn raw(self) -> u32 {
        match self {
            ImageOrientation::Up => 1,
            ImageOrientation::UpMirrored => 2,
            ImageOrientation::Down => 3,
            ImageOrientation::DownMirrored => 4,
            ImageOrientation::LeftMirrored => 5,
            ImageOrientation::Right => 6,
            ImageOrientation::RightMirrored => 7,
            ImageOrientation::Left => 8,
        }
    }

    /// The `CGImagePropertyOrientation` value passed to VisionKit.
    pub fn raw_value(self) -> (r: u32)
        ensures
            r == self.raw(),
    {
        match self {
            ImageOrientation::Up => 1,
            ImageOrientation::UpMirrored => 2,
            ImageOrientation::Down => 3,
            ImageOrientation::DownMirrored => 4,
            ImageOrientation::LeftMirrored => 5,
            ImageOrientation::Right => 6,
            ImageOrientation::RightMirrored => 7,
            ImageOrientation::Left => 8,
        }
    }

    /// Every orientation has a value from 1 to 8, and no two orientations
    /// share one.
    pub proof fn lemma_raw_values_distinct(a: Self, b: Self)
        ensures
            1 <= a.raw() <= 8,
            a.raw() == b.raw() ==> a == b,
    {
    }
}

impl Default for ImageOrientation {
    fn default() -> (o: Self)
        ensures
            o == ImageOrientation::Up,
    {
        ImageOrientation::Up
    }
}

/// The views of a sequence of string slices.
pub open spec fn str_views(s: Seq<&str>) -> Seq<Seq<char>> {
    s.map_values(|x: &str| x@)
}

/// The model of an analyzer configuration.
pub struct ConfigurationView {
    /// The analysis types to run.
    pub analysis_types: ImageAnalysisTypes,
    /// The recognition locales, in order.
    pub locales: Seq<Seq<char>>,
}

/// What an analysis should look for, and in which languages.
#[derive(Debug, Clone, PartialEq, Eq)]
pub struct ImageAnalyzerConfiguration {
    analysis_types: ImageAnalysisTypes,
    locales: Vec<String>,
}

impl View for ImageAnalyzerConfiguration {
    type V = ConfigurationView;

    closed spec fn view(&self) -> ConfigurationView {
        ConfigurationView { analysis_types: self.analysis_types, locales: string_views(self.locales@) }
    }
}

impl ImageAnalyzerConfiguration {
    /// A configuration for `analysis_types` with no locales.
    pub fn new(analysis_types: ImageAnalysisTypes) -> (c: Self)
        ensures
            c@.analysis_types == analysis_types,
            c@.locales == Seq::<Seq<char>>::empty(),
    {
        let c = Self { analysis_types, locales: Vec::new() };
        assert(string_views(c.locales@) =~= Seq::<Seq<char>>::empty());
        c
    }

    /// The analysis types to run.
    pub fn analysis_types(&self) -> (t: ImageAnalysisTypes)
        ensures
            t == self@.analysis_types,
    {
        self.analysis_types
    }

    /// The recognition locales, in order.
    pub fn locales(&self) -> (l: &[String])
        ensures
            string_views(l@) == self@.locales,
    {
        self.locales.as_slice()
    }

    /// This configuration with its locales replaced by `locales`, in order.
    pub fn with_locales(self, locales: &[&str]) -> (c: Self)
        ensures
            c@.analysis_types == self@.analysis_types,
            c@.locales == str_views(locales@),
    {
        let mut list: Vec<String> = Vec::new();
        let n = locales.len();
        for i in 0..n
            invariant
                n == locales@.len(),
                string_views(list@) == str_views(locales@).take(i as int),
        {
            let item = String::from_str(locales[i]);
            assert(item@ == str_views(locales@)[i as int]);
            let ghost before = list@;
            list.push(item);
            assert(list@ == before.push(item));
            assert(string_views(list@) =~= string_views(before).push(item@));
            assert(str_views(locales@).take(i + 1) =~= str_views(locales@).take(i as int).push(
                str_views(locales@)[i as int],
            ));
        }
        assert(str_views(locales@).take(n as int) =~= str_views(locales@));
        Self { analysis_types: self.analysis_types, locales: list }
    }
}

/// The name of the language list payload in error messages.
pub open spec fn languages_context() -> Seq<char> {
    "supported text recognition languages"@
}

/// The languages VisionKit can recognize text in, from the bridge's answer:
/// its status, the JSON array it returned, and its error message. The list
/// comes back sorted, holding exactly the languages of the payload.
pub fn supported_text_recognition_languages(
    status: i32,
    payload: Option<String>,
    message: Option<String>,
) -> (r: Result<Vec<String>, VisionKitError>)
    ensures
        status != OK ==> (r matches Err(e) && e@ == status_error(
            status,
            failure_message(status, option_text(message)),
        )),
        status == OK && payload is None ==> (r matches Err(e) && e@ == VisionKitErrorView::Unknown(
            missing_response_message(languages_context()),
        )),
        status == OK && payload is Some ==> match json_string_list(payload->0@) {
            Err(m) => r matches Err(e) && e@ == decode_failure(languages_context(), m),
            Ok(list) => r matches Ok(v) && sorted_by(string_views(v@), text_order())
                && string_views(v@).to_multiset() == list.to_multiset(),
        },
{
    if status != OK {
        return Err(error_from_status(status, message));
    }
    let context = "supported text recognition languages";
    let text = require_bridge_string(payload, context)?;
    let languages = decode_string_list(text.as_str(), context)?;
    Ok(sort_texts(languages))
}

} // verus!
