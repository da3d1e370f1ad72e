use vstd::prelude::*;

verus! {

/// Terminal colors.
#[derive(Copy, Clone, Debug, PartialEq, Eq, Hash)]
pub enum Color {
    Reset,
    Black,
    DarkGrey,
    Red,
    DarkRed,
    Green,
    DarkGreen,
    Yellow,
    DarkYellow,
    Blue,
    DarkBlue,
    Magenta,
    DarkMagenta,
    Cyan,
    DarkCyan,
    White,
    Grey,
    Rgb { r: u8, g: u8, b: u8 },
    AnsiValue(u8),
}

/// Text attributes.
#[derive(Copy, Clone, Debug, PartialEq, Eq, Hash)]
pub enum Attribute {
    Underlined,
    Bold,
}

/// The single bit that stands for an attribute in an [Attributes] set.
pub open spec fn attribute_bit(a: Attribute) -> u32 {
    match a {
        Attribute::Underlined => 2u32,
        Attribute::Bold => 4u32,
    }
}

impl Attribute {
    /// The bit of this attribute: one bit set, shifted by one past its index.
    pub fn bytes(self) -> (r: u32)
        ensures
            r == attribute_bit(self),
    {
        assert(1u32 << 1u32 == 2u32) by (bit_vector);
        assert(1u32 << 2u32 == 4u32) by (bit_vector);
        match self {
            Attribute::Underlined => 1u32 << 1u32,
            Attribute::Bold => 1u32 << 2u32,
        }
    }
}

/// A bitset of attributes.
#[derive(Copy, Clone, Debug, Default, PartialEq, Eq)]
pub struct Attributes(u32);

impl View for Attributes {
    type V = u32;

    closed spec fn view(&self) -> u32 {
        self.0
    }
}

/// Whether the bit of `a` is set in `bits`.
pub open spec fn bits_have(bits: u32, a: Attribute) -> bool {
    bits & attribute_bit(a) != 0
}

/// Unions, intersections, differences and removals of sets holding only the
/// attributes' bits hold only those bits.
proof fn lemma_known_bits_closed(a: u32, b: u32)
    requires
        a & !6u32 == 0,
        b & !6u32 == 0,
    ensures
        (a | b) & !6u32 == 0,
        (a & b) & !6u32 == 0,
        (a ^ b) & !6u32 == 0,
        (a & !b) & !6u32 == 0,
{
    assert((a | b) & !6u32 == 0 && (a & b) & !6u32 == 0 && (a ^ b) & !6u32 == 0 && (a & !b) & !6u32 == 0)
        by (bit_vector)
        requires
            a & !6u32 == 0,
            b & !6u32 == 0,
    ;
}

/// An attribute's bit is one of the attributes' bits.
proof fn lemma_attribute_bit_known(x: Attribute)
    ensures
        attribute_bit(x) & !6u32 == 0,
{
    assert(2u32 & !6u32 == 0 && 4u32 & !6u32 == 0) by (bit_vector);
}

impl Attributes {
    /// Every set holds only the bits of the attributes.
    #[verifier::type_invariant]
    spec fn only_attribute_bits(self) -> bool {
        self.0 & !6u32 == 0
    }

    /// The empty set.
    pub fn none() -> (r: Attributes)
        ensures
            r@ == 0,
    {
        assert(0u32 & !6u32 == 0) by (bit_vector);
        Attributes(0)
    }

    /// A copy with `attribute` set.
    pub fn with(self, attribute: Attribute) -> (r: Attributes)
        ensures
            r@ == self@ | attribute_bit(attribute),
    {
        proof {
            use_type_invariant(&self);
            lemma_attribute_bit_known(attribute);
            lemma_known_bits_closed(self.0, attribute_bit(attribute));
        }
        Attributes(self.0 | attribute.bytes())
    }

    /// A copy with `attribute` unset.
    pub fn without(self, attribute: Attribute) -> (r: Attributes)
        ensures
            r@ == self@ & !attribute_bit(attribute),
    {
        proof {
            use_type_invariant(&self);
            lemma_attribute_bit_known(attribute);
            lemma_known_bits_closed(self.0, attribute_bit(attribute));
        }
        Attributes(self.0 & !attribute.bytes())
    }

    /// Sets the attribute.
    pub fn set(&mut self, attribute: Attribute)
        ensures
            final(self)@ == old(self)@ | attribute_bit(attribute),
    {
        proof {
            use_type_invariant(&*self);
            lemma_attribute_bit_known(attribute);
            lemma_known_bits_closed(self.0, attribute_bit(attribute));
        }
        let v = self.0 | attribute.bytes();
        self.0 = v;
    }

    /// Unsets the attribute.
    pub fn unset(&mut self, attribute: Attribute)
        ensures
            final(self)@ == old(self)@ & !attribute_bit(attribute),
    {
        proof {
            use_type_invariant(&*self);
            lemma_attribute_bit_known(attribute);
            lemma_known_bits_closed(self.0, attribute_bit(attribute));
        }
        let v = self.0 & !attribute.bytes();
        self.0 = v;
    }

    /// Flips the attribute.
    pub fn toggle(&mut self, attribute: Attribute)
        ensures
            final(self)@ == old(self)@ ^ attribute_bit(attribute),
    {
        proof {
            use_type_invariant(&*self);
            lemma_attribute_bit_known(attribute);
            lemma_known_bits_closed(self.0, attribute_bit(attribute));
        }
        let v = self.0 ^ attribute.bytes();
        self.0 = v;
    }

    /// Whether the attribute is set.
    pub fn has(self, attribute: Attribute) -> (r: bool)
        ensures
            r == bits_have(self@, attribute),
    {
        self.0 & attribute.bytes() != 0
    }

    /// Sets all the attributes of `attributes`; removes none.
    pub fn extend(&mut self, attributes: Attributes)
        ensures
            final(self)@ == old(self)@ | attributes@,
    {
        proof {
            use_type_invariant(&*self);
            use_type_invariant(&attributes);
            lemma_known_bits_closed(self.0, attributes.0);
        }
        let v = self.0 | attributes.0;
        self.0 = v;
    }

    /// Whether no attribute is set: neither underline nor bold.
    pub fn is_empty(self) -> (r: bool)
        ensures
            r == (self@ == 0),
            r == (!bits_have(self@, Attribute::Underlined) && !bits_have(self@, Attribute::Bold)),
    {
        proof {
            use_type_invariant(&self);
            let x = self.0;
            assert((x == 0) == (x & 2u32 == 0 && x & 4u32 == 0)) by (bit_vector)
                requires
                    x & !6u32 == 0,
            ;
        }
        self.0 == 0
    }

    /// The set holding exactly `attribute`.
    pub fn from_attribute(attribute: Attribute) -> (r: Attributes)
        ensures
            r@ == attribute_bit(attribute),
    {
        proof {
            lemma_attribute_bit_known(attribute);
        }
        Attributes(attribute.bytes())
    }

    /// The set holding exactly the attributes of `arr`.
    pub fn from_slice(arr: &[Attribute]) -> (r: Attributes)
        ensures
            forall|a: Attribute| #[trigger] bits_have(r@, a) <==> arr@.contains(a),
            r@ & !6u32 == 0,
    {
        let mut attributes = Attributes::none();
        let mut i: usize = 0;
        proof {
            assert(0u32 & !6u32 == 0) by (bit_vector);
            assert forall|a: Attribute| #[trigger] bits_have(0u32, a) <==> arr@.subrange(0, 0).contains(a) by {
                let b = attribute_bit(a);
                assert(0u32 & b == 0) by (bit_vector);
            }
        }
        while i < arr.len()
            invariant
                i <= arr@.len(),
                attributes@ & !6u32 == 0,
                forall|a: Attribute| #[trigger] bits_have(attributes@, a) <==> arr@.subrange(0, i as int).contains(a),
            decreases arr@.len() - i,
        {
            let attr = arr[i];
            let ghost before = attributes@;
            attributes.set(attr);
            proof {
                lemma_set_bits(before, attr);
                let prev = arr@.subrange(0, i as int);
                assert(arr@.subrange(0, i + 1) =~= prev.push(attr));
                assert forall|a: Attribute| #[trigger] prev.push(attr).contains(a) <==> (prev.contains(a) || a == attr) by {
                    if prev.contains(a) {
                        let k = choose|k: int| 0 <= k < prev.len() && prev[k] == a;
                        assert(prev.push(attr)[k] == a);
                    }
                    if a == attr {
                        assert(prev.push(attr)[prev.len() as int] == a);
                    }
                    if prev.push(attr).contains(a) {
                        let k = choose|k: int| 0 <= k < prev.len() + 1 && prev.push(attr)[k] == a;
                        if k < prev.len() {
                            assert(prev[k] == a);
                        }
                    }
                }
            }
            i = i + 1;
        }
        assert(arr@.subrange(0, arr@.len() as int) =~= arr@);
        attributes
    }

    /// The intersection with the bit of `attribute`.
    pub fn bitand_attribute(self, rhs: Attribute) -> (r: Attributes)
        ensures
            r@ == self@ & attribute_bit(rhs),
    {
        proof {
            use_type_invariant(&self);
            lemma_attribute_bit_known(rhs);
            lemma_known_bits_closed(self.0, attribute_bit(rhs));
        }
        Attributes(self.0 & rhs.bytes())
    }

    /// The intersection of two sets.
    pub fn bitand(self, rhs: Attributes) -> (r: Attributes)
        ensures
            r@ == self@ & rhs@,
    {
        proof {
            use_type_invariant(&self);
            use_type_invariant(&rhs);
            lemma_known_bits_closed(self.0, rhs.0);
        }
        Attributes(self.0 & rhs.0)
    }

    /// The union with the bit of `attribute`.
    pub fn bitor_attribute(self, rhs: Attribute) -> (r: Attributes)
        ensures
            r@ == self@ | attribute_bit(rhs),
    {
        proof {
            use_type_invariant(&self);
            lemma_attribute_bit_known(rhs);
            lemma_known_bits_closed(self.0, attribute_bit(rhs));
        }
        Attributes(self.0 | rhs.bytes())
    }

    /// The union of two sets.
    pub fn bitor(self, rhs: Attributes) -> (r: Attributes)
        ensures
            r@ == self@ | rhs@,
    {
        proof {
            use_type_invariant(&self);
            use_type_invariant(&rhs);
            lemma_known_bits_closed(self.0, rhs.0);
        }
        Attributes(self.0 | rhs.0)
    }

    /// The symmetric difference with the bit of `attribute`.
    pub fn bitxor_attribute(self, rhs: Attribute) -> (r: Attributes)
        ensures
            r@ == self@ ^ attribute_bit(rhs),
    {
        proof {
            use_type_invariant(&self);
            lemma_attribute_bit_known(rhs);
            lemma_known_bits_closed(self.0, attribute_bit(rhs));
        }
        Attributes(self.0 ^ rhs.bytes())
    }

    /// The symmetric difference of two sets.
    pub fn bitxor(self, rhs: Attributes) -> (r: Attributes)
        ensures
            r@ == self@ ^ rhs@,
    {
        proof {
            use_type_invariant(&self);
            use_type_invariant(&rhs);
            lemma_known_bits_closed(self.0, rhs.0);
        }
        Attributes(self.0 ^ rhs.0)
    }
}

proof fn lemma_set_bits(before: u32, attr: Attribute)
    requires
        before & !6u32 == 0,
    ensures
        (before | attribute_bit(attr)) & !6u32 == 0,
        forall|a: Attribute| #[trigger] bits_have(before | attribute_bit(attr), a) <==> (bits_have(before, a) || a == attr),
{
    let b = attribute_bit(attr);
    assert(b == 2u32 || b == 4u32);
    assert forall|a: Attribute| #[trigger] bits_have(before | b, a) <==> (bits_have(before, a) || a == attr) by {
        let c = attribute_bit(a);
        if a == attr {
            assert((before | c) & c != 0) by (bit_vector)
                requires c == 2u32 || c == 4u32;
        } else {
            assert(b != c);
            assert(((before | b) & c != 0) <==> (before & c != 0)) by (bit_vector)
                requires (b == 2u32 || b == 4u32), (c == 2u32 || c == 4u32), b != c;
        }
    }
    assert((before | b) & !6u32 == 0) by (bit_vector)
        requires before & !6u32 == 0, b == 2u32 || b == 4u32;
}

/// Setting an attribute makes it present, and leaves every other attribute as it was.
pub proof fn law_with_sets_only_that_attribute(s: Attributes, a: Attribute, b: Attribute)
    ensures
        bits_have(s@ | attribute_bit(a), a),
        b != a ==> (bits_have(s@ | attribute_bit(a), b) == bits_have(s@, b)),
{
    let x = s@;
    let ba = attribute_bit(a);
    let bb = attribute_bit(b);
    assert((x | ba) & ba != 0) by (bit_vector)
        requires ba == 2u32 || ba == 4u32;
    if b != a {
        assert(((x | ba) & bb != 0) == (x & bb != 0)) by (bit_vector)
            requires (ba == 2u32 || ba == 4u32), (bb == 2u32 || bb == 4u32), ba != bb;
    }
}

/// Unsetting an attribute makes it absent, and leaves every other attribute as it was.
pub proof fn law_without_unsets_only_that_attribute(s: Attributes, a: Attribute, b: Attribute)
    ensures
        !bits_have(s@ & !attribute_bit(a), a),
        b != a ==> (bits_have(s@ & !attribute_bit(a), b) == bits_have(s@, b)),
{
    let x = s@;
    let ba = attribute_bit(a);
    let bb = attribute_bit(b);
    assert((x & !ba) & ba == 0) by (bit_vector);
    if b != a {
        assert(((x & !ba) & bb != 0) == (x & bb != 0)) by (bit_vector)
            requires (ba == 2u32 || ba == 4u32), (bb == 2u32 || bb == 4u32), ba != bb;
    }
}

/// Toggling an attribute twice gives back the set it started from.
pub proof fn law_toggle_twice_is_identity(s: Attributes, a: Attribute)
    ensures
        (s@ ^ attribute_bit(a)) ^ attribute_bit(a) == s@,
{
    let x = s@;
    let ba = attribute_bit(a);
    assert((x ^ ba) ^ ba == x) by (bit_vector);
}

/// The style that can be put on content.
#[derive(Copy, Clone, Debug, Default, PartialEq, Eq)]
pub struct ContentStyle {
    pub foreground_color: Option<Color>,
    pub background_color: Option<Color>,
    pub underline_color: Option<Color>,
    pub attributes: Attributes,
}

/// Whether a style has no colors and no attributes.
pub open spec fn is_plain_style(s: ContentStyle) -> bool {
    &&& s.foreground_color is None
    &&& s.background_color is None
    &&& s.underline_color is None
    &&& s.attributes@ == 0
}

impl ContentStyle {
    /// The style with no colors and no attributes.
    pub fn new() -> (r: ContentStyle)
        ensures
            is_plain_style(r),
    {
        ContentStyle {
            foreground_color: None,
            background_color: None,
            underline_color: None,
            attributes: Attributes::none(),
        }
    }

    /// Applies this style to `val`.
    pub fn apply<D>(self, val: D) -> (r: StyledContent<D>)
        ensures
            r.style == self,
            r.content == val,
    {
        StyledContent::new(self, val)
    }

    /// This style with the foreground color set.
    pub fn with(self, color: Color) -> (r: ContentStyle)
        ensures
            r == (ContentStyle { foreground_color: Some(color), ..self }),
    {
        ContentStyle { foreground_color: Some(color), ..self }
    }

    /// This style with the background color set.
    pub fn on(self, color: Color) -> (r: ContentStyle)
        ensures
            r == (ContentStyle { background_color: Some(color), ..self }),
    {
        ContentStyle { background_color: Some(color), ..self }
    }

    /// This style with the underline color set.
    pub fn underline(self, color: Color) -> (r: ContentStyle)
        ensures
            r == (ContentStyle { underline_color: Some(color), ..self }),
    {
        ContentStyle { underline_color: Some(color), ..self }
    }

    /// This style with `attr` set.
    pub fn attribute(self, attr: Attribute) -> (r: ContentStyle)
        ensures
            r.foreground_color == self.foreground_color,
            r.background_color == self.background_color,
            r.underline_color == self.underline_color,
            r.attributes@ == self.attributes@ | attribute_bit(attr),
    {
        let mut s = self;
        s.attributes.set(attr);
        s
    }
}

/// Content with a style.
#[derive(Copy, Clone, Debug, PartialEq, Eq)]
pub struct StyledContent<D> {
    pub style: ContentStyle,
    pub content: D,
}

impl<D> StyledContent<D> {
    /// Creates styled content.
    pub fn new(style: ContentStyle, content: D) -> (r: StyledContent<D>)
        ensures
            r.style == style,
            r.content == content,
    {
        StyledContent { style, content }
    }

    /// The content.
    pub fn content(&self) -> (r: &D)
        ensures
            *r == self.content,
    {
        &self.content
    }

    /// The style.
    pub fn style(&self) -> (r: &ContentStyle)
        ensures
            *r == self.style,
    {
        &self.style
    }

    /// The style, to be changed in place.
    pub fn style_mut(&mut self) -> (r: &mut ContentStyle)
        ensures
            *r == old(self).style,
            *final(self) == (StyledContent { style: *final(r), content: old(self).content }),
    {
        &mut self.style
    }

    /// This content with `attr` set.
    pub fn attribute(self, attr: Attribute) -> (r: StyledContent<D>)
        ensures
            r.content == self.content,
            r.style.foreground_color == self.style.foreground_color,
            r.style.background_color == self.style.background_color,
            r.style.underline_color == self.style.underline_color,
            r.style.attributes@ == self.style.attributes@ | attribute_bit(attr),
    {
        let mut s = self;
        s.style.attributes.set(attr);
        s
    }

    /// The same style on other content.
    pub fn with_content<T>(self, content: T) -> (r: StyledContent<T>)
        ensures
            r.style == self.style,
            r.content == content,
    {
        StyledContent { style: self.style, content }
    }

    /// This content with the foreground color set.
    pub fn with(self, color: Color) -> (r: StyledContent<D>)
        ensures
            r.content == self.content,
            r.style == (ContentStyle { foreground_color: Some(color), ..self.style }),
    {
        StyledContent { style: self.style.with(color), content: self.content }
    }

    /// This content with the background color set.
    pub fn on(self, color: Color) -> (r: StyledContent<D>)
        ensures
            r.content == self.content,
            r.style == (ContentStyle { background_color: Some(color), ..self.style }),
    {
        StyledContent { style: self.style.on(color), content: self.content }
    }

    /// This content with the underline color set.
    pub fn underline(self, color: Color) -> (r: StyledContent<D>)
        ensures
            r.content == self.content,
            r.style == (ContentStyle { underline_color: Some(color), ..self.style }),
    {
        StyledContent { style: self.style.underline(color), content: self.content }
    }
}

/// Wraps `val` in the plain style.
pub fn style<D>(val: D) -> (r: StyledContent<D>)
    ensures
        is_plain_style(r.style),
        r.content == val,
{
    ContentStyle::new().apply(val)
}


/// Values that can be given a style: the styling methods wrap them in
/// [StyledContent] with the plain style and change that style.
pub trait Stylize: Sized {
    /// This value with the plain style.
    fn stylize(self) -> (r: StyledContent<Self>)
        ensures
            is_plain_style(r.style),
            r.content == self,
    ;

    /// Sets the foreground color.
    fn with(self, color: Color) -> (r: StyledContent<Self>)
        ensures
            r.content == self,
            r.style.foreground_color == Some(color),
            r.style.background_color is None,
            r.style.underline_color is None,
            r.style.attributes@ == 0,
    {
        let styled = self.stylize();
        styled.with(color)
    }

    /// Sets the background color.
    fn on(self, color: Color) -> (r: StyledContent<Self>)
        ensures
            r.content == self,
            r.style.foreground_color is None,
            r.style.background_color == Some(color),
            r.style.underline_color is None,
            r.style.attributes@ == 0,
    {
        let styled = self.stylize();
        styled.on(color)
    }

    /// Sets the underline color.
    fn underline(self, color: Color) -> (r: StyledContent<Self>)
        ensures
            r.content == self,
            r.style.foreground_color is None,
            r.style.background_color is None,
            r.style.underline_color == Some(color),
            r.style.attributes@ == 0,
    {
        let styled = self.stylize();
        styled.underline(color)
    }

    /// Styles the content with the attribute.
    fn attribute(self, attr: Attribute) -> (r: StyledContent<Self>)
        ensures
            r.content == self,
            r.style.foreground_color is None,
            r.style.background_color is None,
            r.style.underline_color is None,
            r.style.attributes@ == attribute_bit(attr),
    {
        let styled = self.stylize();
        proof {
            let b = attribute_bit(attr);
            assert(0u32 | b == b) by (bit_vector);
        }
        styled.attribute(attr)
    }
}

impl Stylize for String {
    fn stylize(self) -> (r: StyledContent<String>) {
        StyledContent::new(ContentStyle::new(), self)
    }
}

impl<'a> Stylize for &'a str {
    fn stylize(self) -> (r: StyledContent<&'a str>) {
        StyledContent::new(ContentStyle::new(), self)
    }
}

impl Stylize for char {
    fn stylize(self) -> (r: StyledContent<char>) {
        StyledContent::new(ContentStyle::new(), self)
    }
}


/// The style with no colors and no attributes.
pub closed spec fn plain_style() -> ContentStyle {
    ContentStyle { foreground_color: None, background_color: None, underline_color: None, attributes: Attributes(0) }
}

/// The style with no colors and only the attribute given.
pub closed spec fn attribute_style(a: Attribute) -> ContentStyle {
    ContentStyle {
        foreground_color: None,
        background_color: None,
        underline_color: None,
        attributes: Attributes(attribute_bit(a)),
    }
}

/// The plain style is the one style with no colors and no attributes, and a
/// style with one attribute is the one with no colors and that attribute's bit.
pub proof fn lemma_style_values(s: ContentStyle, a: Attribute)
    ensures
        is_plain_style(s) <==> s == plain_style(),
        (s.foreground_color is None && s.background_color is None && s.underline_color is None && s.attributes@
            == attribute_bit(a)) <==> s == attribute_style(a),
        is_plain_style(plain_style()),
        attribute_style(a).attributes@ == attribute_bit(a),
{
}

} // verus!
