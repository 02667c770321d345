//! Terminal styles, attribute bitsets, and the codec between a style and its
//! record form.
use vstd::prelude::*;

use crate::error::ErrorKind;

verus! {

/// A terminal color: one of the named palette entries, an RGB triple or an
/// ANSI palette index.
#[derive(Clone, Copy, Debug, PartialEq, Eq, Structural)]
pub enum Color {
    Reset,
    Black,
    DarkGrey,
    Red,
    DarkRed,
    Green,
    DarkGreen,
    Yellow,
    DarkYellow,
    Blue,
    DarkBlue,
    Magenta,
    DarkMagenta,
    Cyan,
    DarkCyan,
    White,
    Grey,
    Rgb { r: u8, g: u8, b: u8 },
    AnsiValue(u8),
}

/// A text decoration, listed in its canonical order.
#[derive(Clone, Copy, Debug, PartialEq, Eq, Structural)]
pub enum Attribute {
    Reset,
    Bold,
    Dim,
    Italic,
    Underlined,
    DoubleUnderlined,
    Undercurled,
    Underdotted,
    Underdashed,
    SlowBlink,
    RapidBlink,
    Reverse,
    Hidden,
    CrossedOut,
    Fraktur,
    NoBold,
    NormalIntensity,
    NoItalic,
    NoUnderline,
    NoBlink,
    NoReverse,
    NoHidden,
    NotCrossedOut,
    Framed,
    Encircled,
    OverLined,
    NotFramedOrEncircled,
    NotOverLined,
}

/// The number of attribute variants.
pub const ATTRIBUTE_COUNT: u32 = 28;

/// Position of an attribute in the canonical order.
pub open spec fn attr_index(a: Attribute) -> u32 {
    match a {
        Attribute::Reset => 0,
        Attribute::Bold => 1,
        Attribute::Dim => 2,
        Attribute::Italic => 3,
        Attribute::Underlined => 4,
        Attribute::DoubleUnderlined => 5,
        Attribute::Undercurled => 6,
        Attribute::Underdotted => 7,
        Attribute::Underdashed => 8,
        Attribute::SlowBlink => 9,
        Attribute::RapidBlink => 10,
        Attribute::Reverse => 11,
        Attribute::Hidden => 12,
        Attribute::CrossedOut => 13,
        Attribute::Fraktur => 14,
        Attribute::NoBold => 15,
        Attribute::NormalIntensity => 16,
        Attribute::NoItalic => 17,
        Attribute::NoUnderline => 18,
        Attribute::NoBlink => 19,
        Attribute::NoReverse => 20,
        Attribute::NoHidden => 21,
        Attribute::NotCrossedOut => 22,
        Attribute::Framed => 23,
        Attribute::Encircled => 24,
        Attribute::OverLined => 25,
        Attribute::NotFramedOrEncircled => 26,
        Attribute::NotOverLined => 27,
    }
}

/// The attribute at a canonical position (positions past the end map to the last one).
pub open spec fn attr_at(i: u32) -> Attribute {
    match i {
        0 => Attribute::Reset,
        1 => Attribute::Bold,
        2 => Attribute::Dim,
        3 => Attribute::Italic,
        4 => Attribute::Underlined,
        5 => Attribute::DoubleUnderlined,
        6 => Attribute::Undercurled,
        7 => Attribute::Underdotted,
        8 => Attribute::Underdashed,
        9 => Attribute::SlowBlink,
        10 => Attribute::RapidBlink,
        11 => Attribute::Reverse,
        12 => Attribute::Hidden,
        13 => Attribute::CrossedOut,
        14 => Attribute::Fraktur,
        15 => Attribute::NoBold,
        16 => Attribute::NormalIntensity,
        17 => Attribute::NoItalic,
        18 => Attribute::NoUnderline,
        19 => Attribute::NoBlink,
        20 => Attribute::NoReverse,
        21 => Attribute::NoHidden,
        22 => Attribute::NotCrossedOut,
        23 => Attribute::Framed,
        24 => Attribute::Encircled,
        25 => Attribute::OverLined,
        26 => Attribute::NotFramedOrEncircled,
        _ => Attribute::NotOverLined,
    }
}

/// The single bit that stands for `a` in an attribute set.
pub open spec fn attr_bit(a: Attribute) -> u32 {
    1u32 << attr_index(a)
}

pub proof fn lemma_attr_index_bound(a: Attribute)
    ensures
        attr_index(a) < ATTRIBUTE_COUNT,
        attr_at(attr_index(a)) == a,
{
}

pub proof fn lemma_attr_at_index(i: u32)
    requires
        i < ATTRIBUTE_COUNT,
    ensures
        attr_index(attr_at(i)) == i,
{
}

impl Attribute {
    /// Position of this attribute in the canonical order.
    pub fn index(self) -> (r: u32)
        ensures
            r == attr_index(self),
    {
        match self {
            Attribute::Reset => 0,
            Attribute::Bold => 1,
            Attribute::Dim => 2,
            Attribute::Italic => 3,
            Attribute::Underlined => 4,
            Attribute::DoubleUnderlined => 5,
            Attribute::Undercurled => 6,
            Attribute::Underdotted => 7,
            Attribute::Underdashed => 8,
            Attribute::SlowBlink => 9,
            Attribute::RapidBlink => 10,
            Attribute::Reverse => 11,
            Attribute::Hidden => 12,
            Attribute::CrossedOut => 13,
            Attribute::Fraktur => 14,
            Attribute::NoBold => 15,
            Attribute::NormalIntensity => 16,
            Attribute::NoItalic => 17,
            Attribute::NoUnderline => 18,
            Attribute::NoBlink => 19,
            Attribute::NoReverse => 20,
            Attribute::NoHidden => 21,
            Attribute::NotCrossedOut => 22,
            Attribute::Framed => 23,
            Attribute::Encircled => 24,
            Attribute::OverLined => 25,
            Attribute::NotFramedOrEncircled => 26,
            Attribute::NotOverLined => 27,
        }
    }

    /// The attribute at canonical position `i`.
    pub fn at(i: u32) -> (r: Attribute)
        requires
            i < ATTRIBUTE_COUNT,
        ensures
            r == attr_at(i),
    {
        match i {
            0 => Attribute::Reset,
            1 => Attribute::Bold,
            2 => Attribute::Dim,
            3 => Attribute::Italic,
            4 => Attribute::Underlined,
            5 => Attribute::DoubleUnderlined,
            6 => Attribute::Undercurled,
            7 => Attribute::Underdotted,
            8 => Attribute::Underdashed,
            9 => Attribute::SlowBlink,
            10 => Attribute::RapidBlink,
            11 => Attribute::Reverse,
            12 => Attribute::Hidden,
            13 => Attribute::CrossedOut,
            14 => Attribute::Fraktur,
            15 => Attribute::NoBold,
            16 => Attribute::NormalIntensity,
            17 => Attribute::NoItalic,
            18 => Attribute::NoUnderline,
            19 => Attribute::NoBlink,
            20 => Attribute::NoReverse,
            21 => Attribute::NoHidden,
            22 => Attribute::NotCrossedOut,
            23 => Attribute::Framed,
            24 => Attribute::Encircled,
            25 => Attribute::OverLined,
            26 => Attribute::NotFramedOrEncircled,
            _ => Attribute::NotOverLined,
        }
    }
}


/// Whether bit `i` of `bits` is set.
pub open spec fn bit_set(bits: u32, i: u32) -> bool {
    bits & (1u32 << i) != 0
}

/// The bits of `bits` below position `n`.
pub open spec fn low_bits(bits: u32, n: u32) -> u32 {
    bits & !(0xffff_ffffu32 << n)
}

proof fn lemma_or_bit(b: u32, i: u32, j: u32)
    requires
        i < 32,
        j < 32,
    ensures
        ((b | (1u32 << i)) & (1u32 << j) != 0) == (i == j || b & (1u32 << j) != 0),
{
    assert(((b | (1u32 << i)) & (1u32 << j) != 0) == (i == j || b & (1u32 << j) != 0))
        by (bit_vector)
        requires
            i < 32,
            j < 32,
    ;
}

proof fn lemma_or_bit_bound(b: u32, i: u32)
    requires
        i < 28,
        b < 0x1000_0000u32,
    ensures
        (b | (1u32 << i)) < 0x1000_0000u32,
{
    assert((b | (1u32 << i)) < 0x1000_0000u32) by (bit_vector)
        requires
            i < 28,
            b < 0x1000_0000u32,
    ;
}

proof fn lemma_low_bits_step(b: u32, n: u32)
    requires
        n < 28,
    ensures
        b & (1u32 << n) != 0 ==> low_bits(b, n) | (1u32 << n) == low_bits(b, (n + 1) as u32),
        b & (1u32 << n) == 0 ==> low_bits(b, n) == low_bits(b, (n + 1) as u32),
{
    assert(b & (1u32 << n) != 0 ==> (b & !(0xffff_ffffu32 << n)) | (1u32 << n) == b & !(
    0xffff_ffffu32 << ((n + 1) as u32))) by (bit_vector)
        requires
            n < 28,
    ;
    assert(b & (1u32 << n) == 0 ==> b & !(0xffff_ffffu32 << n) == b & !(0xffff_ffffu32 << ((n
        + 1) as u32))) by (bit_vector)
        requires
            n < 28,
    ;
}

proof fn lemma_low_bits_ends(b: u32)
    ensures
        low_bits(b, 0) == 0,
        b < 0x1000_0000u32 ==> low_bits(b, 28) == b,
{
    assert(b & !(0xffff_ffffu32 << 0u32) == 0) by (bit_vector);
    assert(b < 0x1000_0000u32 ==> b & !(0xffff_ffffu32 << 28u32) == b) by (bit_vector);
}

/// A set of attributes held as a bitset: attribute `a` is a member when the bit
/// at its canonical position is set.
#[derive(Clone, Copy, Debug, PartialEq, Eq, Structural)]
pub struct AttributeSet {
    pub bits: u32,
}

impl View for AttributeSet {
    type V = Set<Attribute>;

    open spec fn view(&self) -> Set<Attribute> {
        Set::new(|a: Attribute| bit_set(self.bits, attr_index(a)))
    }
}

impl AttributeSet {
    /// Only the bits of known attributes are set.
    pub open spec fn wf(self) -> bool {
        self.bits < 0x1000_0000u32
    }

    /// The empty set.
    pub fn empty() -> (r: AttributeSet)
        ensures
            r.bits == 0,
            r.wf(),
            r@ == Set::<Attribute>::empty(),
    {
        let r = AttributeSet { bits: 0 };
        assert forall|a: Attribute| !r@.contains(a) by {
            lemma_attr_index_bound(a);
            let i = attr_index(a);
            assert(0u32 & (1u32 << i) == 0) by (bit_vector);
        }
        assert(r@ =~= Set::<Attribute>::empty());
        r
    }

    /// This set with `a` added.
    pub fn with(self, a: Attribute) -> (r: AttributeSet)
        ensures
            r.bits == self.bits | attr_bit(a),
            self.bits == 0 ==> r.bits == attr_bit(a),
            self.wf() ==> r.wf(),
            r@ == self@.insert(a),
    {
        let r = AttributeSet { bits: self.bits | (1u32 << a.index()) };
        proof {
            lemma_attr_index_bound(a);
            let x = 1u32 << attr_index(a);
            assert(0u32 | x == x) by (bit_vector);
            if self.wf() {
                lemma_or_bit_bound(self.bits, attr_index(a));
            }
            assert forall|x: Attribute| r@.contains(x) == self@.insert(a).contains(x) by {
                lemma_attr_index_bound(x);
                lemma_or_bit(self.bits, attr_index(a), attr_index(x));
            }
            assert(r@ =~= self@.insert(a));
        }
        r
    }

    /// Whether `a` is a member.
    pub fn has(self, a: Attribute) -> (r: bool)
        ensures
            r == self@.contains(a),
            r == bit_set(self.bits, attr_index(a)),
    {
        proof {
            lemma_attr_index_bound(a);
        }
        self.bits & (1u32 << a.index()) != 0
    }

    /// Whether no bit is set.
    pub fn is_empty(self) -> (r: bool)
        ensures
            r == (self.bits == 0),
    {
        self.bits == 0
    }
}

/// A renderable text style: three optional colors and a set of attributes.
#[derive(Clone, Copy, Debug, PartialEq, Eq, Structural)]
pub struct Style {
    pub foreground: Option<Color>,
    pub background: Option<Color>,
    pub underline: Option<Color>,
    pub attributes: AttributeSet,
}

impl Style {
    /// The style that applies nothing.
    pub fn new() -> (r: Style)
        ensures
            r == Style::plain(),
    {
        Style { foreground: None, background: None, underline: None, attributes: AttributeSet::empty() }
    }

    pub open spec fn plain() -> Style {
        Style {
            foreground: None,
            background: None,
            underline: None,
            attributes: AttributeSet { bits: 0 },
        }
    }

    pub open spec fn wf(self) -> bool {
        self.attributes.wf()
    }
}

/// The serializable form of a style: attributes as a list, absent when empty.
#[derive(Clone, Debug, PartialEq, Eq)]
pub struct StyleRecord {
    pub foreground: Option<Color>,
    pub background: Option<Color>,
    pub underline: Option<Color>,
    pub attributes: Option<Vec<Attribute>>,
}

/// What a `StyleRecord` holds, with the attribute list as a sequence.
pub struct StyleRecordModel {
    pub foreground: Option<Color>,
    pub background: Option<Color>,
    pub underline: Option<Color>,
    pub attributes: Option<Seq<Attribute>>,
}

impl View for StyleRecord {
    type V = StyleRecordModel;

    open spec fn view(&self) -> StyleRecordModel {
        StyleRecordModel {
            foreground: self.foreground,
            background: self.background,
            underline: self.underline,
            attributes: match self.attributes {
                Some(v) => Some(v@),
                None => None,
            },
        }
    }
}

/// The members of `bits` among the first `n` canonical positions, in canonical order.
pub open spec fn canonical_attrs(bits: u32, n: u32) -> Seq<Attribute>
    decreases n,
{
    if n == 0 {
        Seq::empty()
    } else {
        let prev = canonical_attrs(bits, (n - 1) as u32);
        if bit_set(bits, (n - 1) as u32) {
            prev.push(attr_at((n - 1) as u32))
        } else {
            prev
        }
    }
}

/// The bitset holding exactly the attributes of a list.
pub open spec fn bits_of_list(l: Seq<Attribute>) -> u32
    decreases l.len(),
{
    if l.len() == 0 {
        0
    } else {
        bits_of_list(l.drop_last()) | attr_bit(l.last())
    }
}

/// The record form of a style: the attribute list is left out when no known
/// attribute is a member.
pub open spec fn encode(s: Style) -> StyleRecordModel {
    StyleRecordModel {
        foreground: s.foreground,
        background: s.background,
        underline: s.underline,
        attributes: if canonical_attrs(s.attributes.bits, ATTRIBUTE_COUNT).len() == 0 {
            None
        } else {
            Some(canonical_attrs(s.attributes.bits, ATTRIBUTE_COUNT))
        },
    }
}

/// The style a record stands for; a present but empty attribute list is malformed.
pub open spec fn decode(r: StyleRecordModel) -> Result<Style, ErrorKind> {
    match r.attributes {
        Some(l) if l.len() == 0 => Err(ErrorKind::MalformedStructure),
        _ => Ok(
            Style {
                foreground: r.foreground,
                background: r.background,
                underline: r.underline,
                attributes: AttributeSet {
                    bits: match r.attributes {
                        Some(l) => bits_of_list(l),
                        None => 0,
                    },
                },
            },
        ),
    }
}

/// Turns a style into its record: colors copied, attributes listed in
/// canonical order, the list left out when the set is empty.
pub fn serialize(style: &Style) -> (r: StyleRecord)
    ensures
        r@ == encode(*style),
{
    let bits = style.attributes.bits;
    let mut out: Vec<Attribute> = Vec::new();
    let mut i: u32 = 0;
    while i < ATTRIBUTE_COUNT
        invariant
            i <= ATTRIBUTE_COUNT,
            bits == style.attributes.bits,
            out@ == canonical_attrs(bits, i),
        decreases ATTRIBUTE_COUNT - i,
    {
        let a = Attribute::at(i);
        proof {
            lemma_attr_at_index(i);
        }
        if style.attributes.has(a) {
            out.push(a);
        }
        i = i + 1;
    }
    let attributes = if out.len() == 0 {
        None
    } else {
        Some(out)
    };
    StyleRecord {
        foreground: style.foreground,
        background: style.background,
        underline: style.underline,
        attributes,
    }
}

/// Turns a record into a style: colors copied, the attribute list folded into a set.
pub fn deserialize(record: &StyleRecord) -> (r: Result<Style, ErrorKind>)
    ensures
        r == decode(record@),
        r is Ok ==> r->Ok_0.wf(),
{
    let mut attributes = AttributeSet::empty();
    match &record.attributes {
        None => {},
        Some(list) => {
            if list.len() == 0 {
                return Err(ErrorKind::MalformedStructure);
            }
            let mut i: usize = 0;
            while i < list.len()
                invariant
                    i <= list@.len(),
                    attributes.wf(),
                    attributes.bits == bits_of_list(list@.take(i as int)),
                decreases list@.len() - i,
            {
                assert(list@.take(i + 1).drop_last() =~= list@.take(i as int));
                attributes = attributes.with(list[i]);
                i = i + 1;
            }
            assert(list@.take(list@.len() as int) =~= list@);
        },
    }
    Ok(
        Style {
            foreground: record.foreground,
            background: record.background,
            underline: record.underline,
            attributes,
        },
    )
}


proof fn lemma_bits_of_canonical(b: u32, n: u32)
    requires
        n <= ATTRIBUTE_COUNT,
    ensures
        bits_of_list(canonical_attrs(b, n)) == low_bits(b, n),
    decreases n,
{
    if n == 0 {
        lemma_low_bits_ends(b);
    } else {
        let m = (n - 1) as u32;
        lemma_bits_of_canonical(b, m);
        lemma_low_bits_step(b, m);
        let prev = canonical_attrs(b, m);
        if bit_set(b, m) {
            lemma_attr_at_index(m);
            assert(prev.push(attr_at(m)).drop_last() =~= prev);
        }
    }
}

proof fn lemma_bits_of_list_members(l: Seq<Attribute>, a: Attribute)
    ensures
        bit_set(bits_of_list(l), attr_index(a)) == l.contains(a),
        bits_of_list(l) < 0x1000_0000u32,
    decreases l.len(),
{
    lemma_attr_index_bound(a);
    if l.len() == 0 {
        let i = attr_index(a);
        assert(0u32 & (1u32 << i) == 0) by (bit_vector);
    } else {
        let prev = l.drop_last();
        lemma_bits_of_list_members(prev, a);
        lemma_attr_index_bound(l.last());
        lemma_or_bit(bits_of_list(prev), attr_index(l.last()), attr_index(a));
        lemma_or_bit_bound(bits_of_list(prev), attr_index(l.last()));
        assert(l =~= prev.push(l.last()));
        assert(l.contains(a) == (prev.contains(a) || l.last() == a));
    }
}

proof fn lemma_low_bits_agree(b1: u32, b2: u32, n: u32)
    requires
        n <= ATTRIBUTE_COUNT,
        forall|j: u32| j < n ==> bit_set(b1, j) == bit_set(b2, j),
    ensures
        low_bits(b1, n) == low_bits(b2, n),
    decreases n,
{
    if n == 0 {
        lemma_low_bits_ends(b1);
        lemma_low_bits_ends(b2);
    } else {
        let m = (n - 1) as u32;
        lemma_low_bits_agree(b1, b2, m);
        lemma_low_bits_step(b1, m);
        lemma_low_bits_step(b2, m);
        assert(bit_set(b1, m) == bit_set(b2, m));
    }
}

/// Decoding a record with an attribute list yields exactly the attributes that
/// the list names.
pub proof fn lemma_decoded_attributes(r: StyleRecordModel, l: Seq<Attribute>)
    requires
        r.attributes == Some(l),
        l.len() > 0,
    ensures
        decode(r) is Ok,
        decode(r)->Ok_0.wf(),
        decode(r)->Ok_0.attributes@ == l.to_set(),
{
    let s = decode(r)->Ok_0;
    assert forall|a: Attribute| s.attributes@.contains(a) == l.to_set().contains(a) by {
        lemma_bits_of_list_members(l, a);
    }
    lemma_bits_of_list_members(l, Attribute::Reset);
    assert(s.attributes@ =~= l.to_set());
}

/// Decoding inverts encoding: every valid style comes back unchanged.
pub proof fn lemma_round_trip(s: Style)
    requires
        s.wf(),
    ensures
        decode(encode(s)) == Ok::<Style, ErrorKind>(s),
{
    let b = s.attributes.bits;
    lemma_bits_of_canonical(b, ATTRIBUTE_COUNT);
    lemma_low_bits_ends(b);
}

/// Encoding is a function of the style alone: equal styles give equal records.
pub proof fn lemma_encode_deterministic(s1: Style, s2: Style)
    requires
        s1 == s2,
    ensures
        encode(s1) == encode(s2),
{
}

/// The order and repetition of names in an attribute list do not matter: two
/// records that agree on colors and on the set of listed attributes decode to
/// the same style, and re-encoding that style lists the attributes in
/// canonical order.
pub proof fn lemma_attribute_order_irrelevant(r1: StyleRecordModel, r2: StyleRecordModel)
    requires
        r1.foreground == r2.foreground,
        r1.background == r2.background,
        r1.underline == r2.underline,
        r1.attributes is Some,
        r2.attributes is Some,
        r1.attributes->Some_0.len() > 0,
        r1.attributes->Some_0.to_set() == r2.attributes->Some_0.to_set(),
    ensures
        decode(r1) is Ok,
        decode(r1) == decode(r2),
        encode(decode(r1)->Ok_0).attributes == Some(
            canonical_attrs(decode(r1)->Ok_0.attributes.bits, ATTRIBUTE_COUNT),
        ),
{
    let l1 = r1.attributes->Some_0;
    let l2 = r2.attributes->Some_0;
    assert(l1.to_set().contains(l1[0]));
    assert(l2.len() > 0);
    let b1 = bits_of_list(l1);
    let b2 = bits_of_list(l2);
    assert forall|j: u32| j < ATTRIBUTE_COUNT implies bit_set(b1, j) == bit_set(b2, j) by {
        lemma_attr_at_index(j);
        lemma_bits_of_list_members(l1, attr_at(j));
        lemma_bits_of_list_members(l2, attr_at(j));
        assert(l1.to_set().contains(attr_at(j)) == l1.contains(attr_at(j)));
        assert(l2.to_set().contains(attr_at(j)) == l2.contains(attr_at(j)));
    }
    lemma_low_bits_agree(b1, b2, ATTRIBUTE_COUNT);
    lemma_bits_of_list_members(l1, l1[0]);
    lemma_bits_of_list_members(l2, l1[0]);
    lemma_low_bits_ends(b1);
    lemma_low_bits_ends(b2);
    lemma_bits_of_canonical(b1, ATTRIBUTE_COUNT);
    assert(l1.contains(l1[0]));
    let i = attr_index(l1[0]);
    lemma_attr_index_bound(l1[0]);
    assert(b1 & (1u32 << i) != 0 ==> b1 != 0) by (bit_vector);
}

} // verus!
