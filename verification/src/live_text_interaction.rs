//! Plain values exchanged with the live text overlay: text ranges and their
//! validation, attributed text, menus and menu tags, and interaction type
//! flags.
use vstd::prelude::*;
use vstd::std_specs::ops::BitOrSpecImpl;

use crate::error::{VisionKitError, VisionKitErrorView};
use crate::image_analyzer::{bits_contain, lemma_bits_contain_is_subset};

verus! {

/// A range of UTF-16 code units in the overlay's text.
#[derive(Debug, Clone, Copy, PartialEq, Eq, Default, Structural)]
pub struct LiveTextTextRange {
    /// Where the range starts.
    pub location: usize,
    /// How many units it spans.
    pub length: usize,
}

impl LiveTextTextRange {
    /// The range of `length` units starting at `location`.
    pub fn new(location: usize, length: usize) -> (r: Self)
        ensures
            r.location == location,
            r.length == length,
    {
        Self { location, length }
    }

    /// The offset just past the range, or `usize::MAX` where that would
    /// overflow.
    pub open spec fn spec_end(self) -> int {
        if self.location + self.length > usize::MAX {
            usize::MAX as int
        } else {
            self.location + self.length
        }
    }

    /// The offset just past the range, saturating at `usize::MAX`.
    pub fn end(self) -> (e: usize)
        ensures
            e == self.spec_end(),
    {
        self.location.saturating_add(self.length)
    }

    /// The end of a range is never before its start, and it is exact
    /// whenever the true end fits in `usize`, in particular for every range
    /// the overlay accepts.
    pub proof fn lemma_end_bounds(self)
        ensures
            self.location <= self.spec_end() <= usize::MAX,
            self.location + self.length <= usize::MAX ==> self.spec_end() == self.location + self.length,
            self.fits_overlay() ==> self.spec_end() == self.location + self.length <= isize::MAX,
    {
    }

    /// The range ends at or before the largest offset the overlay's text
    /// API can hold.
    pub open spec fn fits_overlay(self) -> bool {
        self.location + self.length <= isize::MAX
    }

    /// A range fits the overlay exactly when its true end, location plus
    /// length, is at most `isize::MAX`, wherever it starts; equivalently,
    /// when the end that [`LiveTextTextRange::end`] reports is at most
    /// `isize::MAX`.
    pub proof fn lemma_fits_overlay_exactly(self)
        ensures
            self.fits_overlay() <==> self.location + self.length <= isize::MAX,
            self.fits_overlay() <==> self.spec_end() <= isize::MAX,
    {
        assert(isize::MAX < usize::MAX);
    }
}

/// The largest offset the overlay's text API accepts, `isize::MAX`.
pub fn largest_text_offset() -> (m: usize)
    ensures
        m == isize::MAX,
{
    proof {
        assert(isize::MAX <= usize::MAX);
    }
    isize::MAX as usize
}

/// The message for a selection range whose end does not fit.
pub open spec fn overflowing_range_message() -> Seq<char> {
    "selected text range end overflows"@
}

/// Checks ranges before they are selected: every range must end at or
/// before `isize::MAX`; the first one that does not is refused.
pub fn validate_selected_ranges(ranges: &[LiveTextTextRange]) -> (r: Result<(), VisionKitError>)
    ensures
        r is Ok <==> forall|i: int| 0 <= i < ranges@.len() ==> (#[trigger] ranges@[i]).fits_overlay(),
        r is Ok <==> forall|i: int|
            0 <= i < ranges@.len() ==> #[trigger] ranges@[i].location + ranges@[i].length <= isize::MAX,
        r matches Err(e) ==> e@ == VisionKitErrorView::InvalidArgument(overflowing_range_message()),
{
    let limit = largest_text_offset();
    let n = ranges.len();
    for i in 0..n
        invariant
            n == ranges@.len(),
            limit == isize::MAX,
            forall|k: int| 0 <= k < i ==> (#[trigger] ranges@[k]).fits_overlay(),
    {
        let range = ranges[i];
        if range.location > limit || range.length > limit - range.location {
            return Err(VisionKitError::InvalidArgument(String::from_str("selected text range end overflows")));
        }
    }
    Ok(())
}

/// The message for a length that does not fit in `usize`.
pub open spec fn address_width_message(context: Seq<char>) -> Seq<char> {
    context + " length exceeded this platform's address width"@
}

/// Converts a length reported by the bridge to `usize`.
pub fn u64_to_usize(value: u64, context: &str) -> (r: Result<usize, VisionKitError>)
    ensures
        r is Ok <==> value <= usize::MAX,
        r matches Ok(n) ==> n == value,
        r matches Err(e) ==> e@ == VisionKitErrorView::Unknown(address_width_message(context@)),
{
    if value <= usize::MAX as u64 {
        Ok(value as usize)
    } else {
        let mut m = String::from_str(context);
        m.append(" length exceeded this platform's address width");
        Err(VisionKitError::Unknown(m))
    }
}

/// A named attribute of a run of attributed text.
#[derive(Debug, Clone, PartialEq, Eq)]
pub struct LiveTextAttributedTextAttribute {
    /// The attribute's name.
    pub name: String,
    /// The attribute's value, as text.
    pub value: String,
}

/// A run of attributed text: a range and the attributes that hold on it.
#[derive(Debug, Clone, PartialEq, Eq)]
pub struct LiveTextAttributedTextRun {
    /// The range the run covers.
    pub range: LiveTextTextRange,
    /// The attributes of the run.
    pub attributes: Vec<LiveTextAttributedTextAttribute>,
}

/// Selected text together with its attribute runs.
#[derive(Debug, Clone, PartialEq, Eq)]
pub struct LiveTextAttributedText {
    /// The selected text.
    pub text: String,
    /// The attribute runs over the text.
    pub runs: Vec<LiveTextAttributedTextRun>,
}

/// A tag that identifies an item of the overlay's menu.
#[derive(Debug, Clone, Copy, PartialEq, Eq, Hash, Structural)]
pub struct LiveTextMenuTag(i64);

/// The tag values VisionKit assigns to the overlay's own menu items.
#[derive(Debug, Clone, Copy, PartialEq, Eq, Structural)]
pub struct LiveTextMenuTagConstants {
    /// The tag of the "copy image" item.
    pub copy_image: i64,
    /// The tag of the "share image" item.
    pub share_image: i64,
    /// The tag of the "copy subject" item.
    pub copy_subject: i64,
    /// The tag of the "share subject" item.
    pub share_subject: i64,
    /// The tag of the "look up" item.
    pub lookup_item: i64,
    /// The tag of the recommended-app items.
    pub recommended_app_items: i64,
}

/// The tag picked out of the constants by `pick`, or the error that came
/// instead of them.
pub open spec fn tag_result(
    constants: Result<LiveTextMenuTagConstants, VisionKitError>,
    pick: spec_fn(LiveTextMenuTagConstants) -> i64,
    r: Result<LiveTextMenuTag, VisionKitError>,
) -> bool {
    match constants {
        Ok(c) => r matches Ok(t) && t.raw() == pick(c),
        Err(e) => r matches Err(f) && f@ == e@,
    }
}

impl LiveTextMenuTag {
    /// The raw tag value.
    pub closed spec fn raw(self) -> i64 {
        self.0
    }

    /// The tag with raw value `raw_value`.
    pub fn new(raw_value: i64) -> (t: Self)
        ensures
            t.raw() == raw_value,
    {
        Self(raw_value)
    }

    /// The raw tag value.
    pub fn raw_value(self) -> (r: i64)
        ensures
            r == self.raw(),
    {
        self.0
    }

    /// A tag is determined by its raw value.
    pub proof fn lemma_raw_determines(a: Self, b: Self)
        ensures
            a.raw() == b.raw() ==> a == b,
            Self::new_spec(a.raw()) == a,
    {
    }

    /// The tag with raw value `raw_value`, in specifications.
    pub closed spec fn new_spec(raw_value: i64) -> Self {
        Self(raw_value)
    }

    /// The tag of the "copy image" item, from VisionKit's tag constants.
    pub fn copy_image(constants: Result<LiveTextMenuTagConstants, VisionKitError>) -> (r: Result<Self, VisionKitError>)
        ensures
            tag_result(constants, |c: LiveTextMenuTagConstants| c.copy_image, r),
    {
        match constants {
            Ok(c) => Ok(Self(c.copy_image)),
            Err(e) => Err(e),
        }
    }

    /// The tag of the "share image" item, from VisionKit's tag constants.
    pub fn share_image(constants: Result<LiveTextMenuTagConstants, VisionKitError>) -> (r: Result<Self, VisionKitError>)
        ensures
            tag_result(constants, |c: LiveTextMenuTagConstants| c.share_image, r),
    {
        match constants {
            Ok(c) => Ok(Self(c.share_image)),
            Err(e) => Err(e),
        }
    }

    /// The tag of the "copy subject" item, from VisionKit's tag constants.
    pub fn copy_subject(constants: Result<LiveTextMenuTagConstants, VisionKitError>) -> (r: Result<Self, VisionKitError>)
        ensures
            tag_result(constants, |c: LiveTextMenuTagConstants| c.copy_subject, r),
    {
        match constants {
            Ok(c) => Ok(Self(c.copy_subject)),
            Err(e) => Err(e),
        }
    }

    /// The tag of the "share subject" item, from VisionKit's tag constants.
    pub fn share_subject(constants: Result<LiveTextMenuTagConstants, VisionKitError>) -> (r: Result<Self, VisionKitError>)
        ensures
            tag_result(constants, |c: LiveTextMenuTagConstants| c.share_subject, r),
    {
        match constants {
            Ok(c) => Ok(Self(c.share_subject)),
            Err(e) => Err(e),
        }
    }

    /// The tag of the "look up" item, from VisionKit's tag constants.
    pub fn lookup_item(constants: Result<LiveTextMenuTagConstants, VisionKitError>) -> (r: Result<Self, VisionKitError>)
        ensures
            tag_result(constants, |c: LiveTextMenuTagConstants| c.lookup_item, r),
    {
        match constants {
            Ok(c) => Ok(Self(c.lookup_item)),
            Err(e) => Err(e),
        }
    }

    /// The tag of the recommended-app items, from VisionKit's tag constants.
    pub fn recommended_app_items(constants: Result<LiveTextMenuTagConstants, VisionKitError>) -> (r: Result<Self, VisionKitError>)
        ensures
            tag_result(constants, |c: LiveTextMenuTagConstants| c.recommended_app_items, r),
    {
        match constants {
            Ok(c) => Ok(Self(c.recommended_app_items)),
            Err(e) => Err(e),
        }
    }
}

/// An item of the overlay's menu.
#[derive(Debug, PartialEq, Eq)]
pub struct LiveTextMenuItem {
    /// The item's title.
    pub title: String,
    /// The item's tag.
    pub tag: i64,
    /// Whether the item is a separator.
    pub is_separator: bool,
    /// Whether the item is enabled.
    pub is_enabled: bool,
    /// Whether the item is hidden.
    pub is_hidden: bool,
    /// The item's state (off, on or mixed).
    pub state: i64,
    /// The item's submenu, if any.
    pub submenu: Option<Box<LiveTextMenu>>,
}

/// A menu of the overlay.
#[derive(Debug, PartialEq, Eq)]
pub struct LiveTextMenu {
    /// The menu's title.
    pub title: String,
    /// The menu's items, in order.
    pub items: Vec<LiveTextMenuItem>,
}

/// Interaction flag bits that no named [`LiveTextInteractionTypes`] value
/// stands for.
#[derive(Debug, Clone, Copy, PartialEq, Eq, Hash, Structural)]
pub struct OtherInteractionBits(u64);

impl OtherInteractionBits {
    /// The flag bits held.
    pub closed spec fn value(self) -> u64 {
        self.0
    }

    /// The holder of flag bits `raw`.
    pub closed spec fn holding(raw: u64) -> Self {
        OtherInteractionBits(raw)
    }

    /// Holding bits and reading them back gives the same bits.
    pub proof fn lemma_holding_value(raw: u64)
        ensures
            Self::holding(raw).value() == raw,
    {
    }

    #[verifier::type_invariant]
    closed spec fn unnamed(self) -> bool {
        !is_named_interaction_bits(self.0)
    }
}

/// Whether `b` is the value of one of the named interaction type sets.
pub open spec fn is_named_interaction_bits(b: u64) -> bool {
    b == 0 || b == 1 || b == 2 || b == 4 || b == 8 || b == 16 || b == 32
}

/// A set of overlay interaction types, held as bit flags.
///
/// The named sets are variants; any other combination of flags is held in
/// [`LiveTextInteractionTypes::Other`], so each set of flags has exactly one
/// form.
#[allow(non_camel_case_types)]
#[derive(Debug, Clone, Copy, PartialEq, Eq, Hash, Structural)]
pub enum LiveTextInteractionTypes {
    /// No interaction.
    NONE,
    /// Whatever interaction fits the content.
    AUTOMATIC,
    /// Text selection.
    TEXT_SELECTION,
    /// Data detectors such as links and dates.
    DATA_DETECTORS,
    /// Lifting image subjects.
    IMAGE_SUBJECT,
    /// Visual look-up.
    VISUAL_LOOK_UP,
    /// Automatic interaction limited to text.
    AUTOMATIC_TEXT_ONLY,
    /// Any other combination of flags.
    Other(OtherInteractionBits),
}

impl View for LiveTextInteractionTypes {
    type V = u64;

    open spec fn view(&self) -> u64 {
        match self {
            LiveTextInteractionTypes::NONE => 0,
            LiveTextInteractionTypes::AUTOMATIC => 1,
            LiveTextInteractionTypes::TEXT_SELECTION => 2,
            LiveTextInteractionTypes::DATA_DETECTORS => 4,
            LiveTextInteractionTypes::IMAGE_SUBJECT => 8,
            LiveTextInteractionTypes::VISUAL_LOOK_UP => 16,
            LiveTextInteractionTypes::AUTOMATIC_TEXT_ONLY => 32,
            LiveTextInteractionTypes::Other(b) => b.value(),
        }
    }
}

impl LiveTextInteractionTypes {
    /// The set with flag bits `raw`.
    pub open spec fn from_bits(raw: u64) -> Self {
        if raw == 0 {
            LiveTextInteractionTypes::NONE
        } else if raw == 1 {
            LiveTextInteractionTypes::AUTOMATIC
        } else if raw == 2 {
            LiveTextInteractionTypes::TEXT_SELECTION
        } else if raw == 4 {
            LiveTextInteractionTypes::DATA_DETECTORS
        } else if raw == 8 {
            LiveTextInteractionTypes::IMAGE_SUBJECT
        } else if raw == 16 {
            LiveTextInteractionTypes::VISUAL_LOOK_UP
        } else if raw == 32 {
            LiveTextInteractionTypes::AUTOMATIC_TEXT_ONLY
        } else {
            LiveTextInteractionTypes::Other(OtherInteractionBits::holding(raw))
        }
    }

    /// The set holding the flags of both `self` and `other`.
    pub open spec fn union(self, other: Self) -> Self {
        Self::from_bits(self@ | other@)
    }

    /// Wraps raw flag bits.
    pub fn new(raw: u64) -> (t: Self)
        ensures
            t@ == raw,
            t == Self::from_bits(raw),
    {
        if raw == 0 {
            LiveTextInteractionTypes::NONE
        } else if raw == 1 {
            LiveTextInteractionTypes::AUTOMATIC
        } else if raw == 2 {
            LiveTextInteractionTypes::TEXT_SELECTION
        } else if raw == 4 {
            LiveTextInteractionTypes::DATA_DETECTORS
        } else if raw == 8 {
            LiveTextInteractionTypes::IMAGE_SUBJECT
        } else if raw == 16 {
            LiveTextInteractionTypes::VISUAL_LOOK_UP
        } else if raw == 32 {
            LiveTextInteractionTypes::AUTOMATIC_TEXT_ONLY
        } else {
            LiveTextInteractionTypes::Other(OtherInteractionBits(raw))
        }
    }

    /// The raw flag bits. A set is the one its bits stand for: two sets
    /// are equal exactly when their bits are.
    pub fn bits(self) -> (b: u64)
        ensures
            b == self@,
            self == Self::from_bits(b),
    {
        if let LiveTextInteractionTypes::Other(o) = self {
            proof {
                use_type_invariant(&o);
            }
        }
        match self {
            LiveTextInteractionTypes::NONE => 0,
            LiveTextInteractionTypes::AUTOMATIC => 1,
            LiveTextInteractionTypes::TEXT_SELECTION => 2,
            LiveTextInteractionTypes::DATA_DETECTORS => 4,
            LiveTextInteractionTypes::IMAGE_SUBJECT => 8,
            LiveTextInteractionTypes::VISUAL_LOOK_UP => 16,
            LiveTextInteractionTypes::AUTOMATIC_TEXT_ONLY => 32,
            LiveTextInteractionTypes::Other(b) => b.0,
        }
    }

    /// Whether every flag of `other` is set in `self`.
    pub fn contains(self, other: Self) -> (b: bool)
        ensures
            b == bits_contain(self@, other@),
    {
        let mine = self.bits();
        let theirs = other.bits();
        (mine & theirs) == theirs
    }

    /// Converting flag bits to a set and back gives the same bits.
    pub proof fn lemma_from_bits_view(raw: u64)
        ensures
            Self::from_bits(raw)@ == raw,
    {
        OtherInteractionBits::lemma_holding_value(raw);
    }

    /// The union of two sets holds exactly the flags of either, contains
    /// both, and is the same in either order.
    pub proof fn lemma_union(a: Self, b: Self)
        ensures
            a.union(b)@ == a@ | b@,
            bits_contain(a.union(b)@, a@),
            bits_contain(a.union(b)@, b@),
            a.union(b) == b.union(a),
    {
        let x = a@;
        let y = b@;
        Self::lemma_from_bits_view(x | y);
        assert(((x | y) & x) == x && ((x | y) & y) == y && (x | y) == (y | x)) by (bit_vector);
    }

    /// Taking unions in either grouping gives the same set.
    pub proof fn lemma_union_associative(a: Self, b: Self, c: Self)
        ensures
            a.union(b).union(c) == a.union(b.union(c)),
    {
        let x = a@;
        let y = b@;
        let z = c@;
        Self::lemma_from_bits_view(x | y);
        Self::lemma_from_bits_view(y | z);
        assert(((x | y) | z) == (x | (y | z))) by (bit_vector);
    }

    /// Every set contains itself and the empty set; containment is
    /// transitive.
    pub proof fn lemma_contains_order(a: Self, b: Self, c: Self)
        ensures
            bits_contain(a@, a@),
            bits_contain(a@, Self::NONE@),
            bits_contain(a@, b@) && bits_contain(b@, c@) ==> bits_contain(a@, c@),
    {
        let x = a@;
        let y = b@;
        let z = c@;
        assert((x & x) == x && (x & 0) == 0u64) by (bit_vector);
        assert(((x & y) == y && (y & z) == z) ==> (x & z) == z) by (bit_vector);
    }

    /// A set contains another exactly when their union is the first set
    /// again, and it contains a single interaction type exactly when it
    /// holds that type's flag.
    pub proof fn lemma_contains_is_subset(a: Self, b: Self)
        ensures
            bits_contain(a@, b@) <==> a.union(b)@ == a@,
            bits_contain(a@, Self::AUTOMATIC@) <==> (a@ & 1) != 0,
            bits_contain(a@, Self::TEXT_SELECTION@) <==> (a@ & 2) != 0,
            bits_contain(a@, Self::DATA_DETECTORS@) <==> (a@ & 4) != 0,
            bits_contain(a@, Self::IMAGE_SUBJECT@) <==> (a@ & 8) != 0,
            bits_contain(a@, Self::VISUAL_LOOK_UP@) <==> (a@ & 16) != 0,
            bits_contain(a@, Self::AUTOMATIC_TEXT_ONLY@) <==> (a@ & 32) != 0,
    {
        let x = a@;
        let y = b@;
        Self::lemma_from_bits_view(x | y);
        lemma_bits_contain_is_subset(x, y);
        assert(((x & 1u64) == 1u64) <==> ((x & 1u64) != 0u64)) by (bit_vector);
        assert(((x & 2u64) == 2u64) <==> ((x & 2u64) != 0u64)) by (bit_vector);
        assert(((x & 4u64) == 4u64) <==> ((x & 4u64) != 0u64)) by (bit_vector);
        assert(((x & 8u64) == 8u64) <==> ((x & 8u64) != 0u64)) by (bit_vector);
        assert(((x & 16u64) == 16u64) <==> ((x & 16u64) != 0u64)) by (bit_vector);
        assert(((x & 32u64) == 32u64) <==> ((x & 32u64) != 0u64)) by (bit_vector);
    }
}

impl core::ops::BitOr for LiveTextInteractionTypes {
    type Output = Self;

    fn bitor(self, rhs: Self) -> (r: Self) {
        Self::new(self.bits() | rhs.bits())
    }
}

impl core::ops::BitOrAssign for LiveTextInteractionTypes {
    fn bitor_assign(&mut self, rhs: Self)
        ensures
            *final(self) == old(self).union(rhs),
    {
        *self = Self::new(self.bits() | rhs.bits());
    }
}

impl Default for LiveTextInteractionTypes {
    fn default() -> (t: Self)
        ensures
            t == LiveTextInteractionTypes::NONE,
    {
        LiveTextInteractionTypes::NONE
    }
}

impl BitOrSpecImpl for LiveTextInteractionTypes {
    open spec fn obeys_bitor_spec() -> bool {
        true
    }

    open spec fn bitor_req(self, rhs: Self) -> bool {
        true
    }

    open spec fn bitor_spec(self, rhs: Self) -> Self {
        self.union(rhs)
    }
}

/// `b` is a copy of `a`: the same titles, tags, flags and states, item by
/// item, with copies of the same submenus.
pub open spec fn menu_copy(a: LiveTextMenu, b: LiveTextMenu) -> bool
    decreases a,
{
    &&& a.title == b.title
    &&& a.items@.len() == b.items@.len()
    &&& forall|k: int|
        0 <= k < a.items@.len() ==> #[trigger] item_copy_at(a, b, k)
}

/// The `k`-th items of `a` and `b` are copies.
pub open spec fn item_copy_at(a: LiveTextMenu, b: LiveTextMenu, k: int) -> bool
    decreases a, 0int,
{
    0 <= k < a.items@.len() && k < b.items@.len() && item_copy(a.items@[k], b.items@[k])
}

/// `b` is a copy of the menu item `a`.
pub open spec fn item_copy(a: LiveTextMenuItem, b: LiveTextMenuItem) -> bool
    decreases a,
{
    &&& a.title == b.title
    &&& a.tag == b.tag
    &&& a.is_separator == b.is_separator
    &&& a.is_enabled == b.is_enabled
    &&& a.is_hidden == b.is_hidden
    &&& a.state == b.state
    &&& match (a.submenu, b.submenu) {
        (None, None) => true,
        (Some(x), Some(y)) => menu_copy(*x, *y),
        _ => false,
    }
}

fn copy_menu(menu: &LiveTextMenu) -> (r: LiveTextMenu)
    ensures
        menu_copy(*menu, r),
    decreases menu,
{
    let mut items: Vec<LiveTextMenuItem> = Vec::new();
    let n = menu.items.len();
    for k in 0..n
        invariant
            n == menu.items@.len(),
            items@.len() == k,
            forall|j: int| 0 <= j < k ==> item_copy(menu.items@[j], #[trigger] items@[j]),
    {
        assert(decreases_to!(menu => menu.items@[k as int]));
        let item = copy_item(&menu.items[k]);
        items.push(item);
    }
    let r = LiveTextMenu { title: menu.title.clone(), items };
    assert forall|k: int| 0 <= k < menu.items@.len() implies #[trigger] item_copy_at(*menu, r, k) by {
        assert(item_copy(menu.items@[k], items@[k]));
    }
    r
}

fn copy_item(item: &LiveTextMenuItem) -> (r: LiveTextMenuItem)
    ensures
        item_copy(*item, r),
    decreases item,
{
    let submenu = match &item.submenu {
        Some(menu) => Some(Box::new(copy_menu(menu))),
        None => None,
    };
    LiveTextMenuItem {
        title: item.title.clone(),
        tag: item.tag,
        is_separator: item.is_separator,
        is_enabled: item.is_enabled,
        is_hidden: item.is_hidden,
        state: item.state,
        submenu,
    }
}

impl Clone for LiveTextMenu {
    /// A copy of the menu, item by item.
    fn clone(&self) -> (r: Self)
        ensures
            menu_copy(*self, r),
    {
        copy_menu(self)
    }
}

impl Clone for LiveTextMenuItem {
    /// A copy of the item and its submenu.
    fn clone(&self) -> (r: Self)
        ensures
            item_copy(*self, r),
    {
        copy_item(self)
    }
}

} // verus!
