//! Typed attribute values and the canonical string form of each, together
//! with the low-level helpers that the rendering engine builds lines from.
use vstd::prelude::*;
use vstd::string::StringExecFns;

verus! {

/// Raw markup text carried through without typed modeling.
pub type Html = String;

/// A single CSS class name.
pub type CssClass = String;

/// A block of CSS text.
pub type Css = String;

/// A URL, kept as an opaque string.
pub type Url = String;

/// Concatenation of character sequences is associative; rendering proofs
/// regroup long attribute concatenations with it.
pub broadcast proof fn lemma_seq_add_assoc<A>(a: Seq<A>, b: Seq<A>, c: Seq<A>)
    ensures
        #[trigger] ((a + b) + c) == a + (b + c),
{
    assert((a + b) + c =~= a + (b + c));
}

/// The text of `depth` indentation units: one tab character per unit.
pub open spec fn indent_text(depth: nat) -> Seq<char> {
    Seq::new(depth, |i: int| '\t')
}

/// Builds the indentation prefix for a line at the given nesting depth.
pub fn build_indentation(depth: usize) -> (r: String)
    ensures
        r@ == indent_text(depth as nat),
{
    let mut out = String::new();
    let mut i: usize = 0;
    while i < depth
        invariant
            i <= depth,
            out@ == indent_text(i as nat),
        decreases depth - i,
    {
        out.append("\t");
        proof {
            reveal_strlit("\t");
            assert(out@ =~= indent_text((i + 1) as nat));
        }
        i = i + 1;
    }
    out
}

/// The decimal digit character for `d`, which must be below ten.
pub open spec fn digit_char(d: nat) -> char {
    if d == 0 { '0' }
    else if d == 1 { '1' }
    else if d == 2 { '2' }
    else if d == 3 { '3' }
    else if d == 4 { '4' }
    else if d == 5 { '5' }
    else if d == 6 { '6' }
    else if d == 7 { '7' }
    else if d == 8 { '8' }
    else { '9' }
}

/// The usual decimal rendering of `n`, without leading zeros
/// (except that zero itself renders as one digit).
pub open spec fn dec_digits(n: nat) -> Seq<char>
    decreases n,
{
    if n < 10 {
        seq![digit_char(n)]
    } else {
        dec_digits(n / 10) + seq![digit_char(n % 10)]
    }
}

/// Appends the single decimal digit `d`.
fn push_digit(out: &mut String, d: u32)
    requires
        d < 10,
    ensures
        final(out)@ == old(out)@ + seq![digit_char(d as nat)],
{
    let s: &str = match d {
        0 => "0",
        1 => "1",
        2 => "2",
        3 => "3",
        4 => "4",
        5 => "5",
        6 => "6",
        7 => "7",
        8 => "8",
        _ => "9",
    };
    proof {
        reveal_strlit("0");
        reveal_strlit("1");
        reveal_strlit("2");
        reveal_strlit("3");
        reveal_strlit("4");
        reveal_strlit("5");
        reveal_strlit("6");
        reveal_strlit("7");
        reveal_strlit("8");
        reveal_strlit("9");
        assert(s@ =~= seq![digit_char(d as nat)]);
    }
    out.append(s);
}

/// Appends the decimal rendering of `n`.
pub fn push_u32(out: &mut String, n: u32)
    ensures
        final(out)@ == old(out)@ + dec_digits(n as nat),
    decreases n,
{
    if n >= 10 {
        push_u32(out, n / 10);
    }
    push_digit(out, n % 10);
    proof {
        if n >= 10 {
            assert(out@ =~= old(out)@ + dec_digits(n as nat));
        }
    }
}

/// Exactly `width` decimal digits of `n`, low digits last, zero-padded on
/// the left; digits of `n` above the width are dropped.
pub open spec fn fixed_digits(n: nat, width: nat) -> Seq<char>
    decreases width,
{
    if width == 0 {
        Seq::empty()
    } else {
        fixed_digits(n / 10, (width - 1) as nat) + seq![digit_char(n % 10)]
    }
}

/// Appends `width` decimal digits of `n`, zero-padded on the left.
pub fn push_fixed_u32(out: &mut String, n: u32, width: u8)
    ensures
        final(out)@ == old(out)@ + fixed_digits(n as nat, width as nat),
    decreases width,
{
    if width > 0 {
        push_fixed_u32(out, n / 10, width - 1);
        push_digit(out, n % 10);
        proof {
            assert(out@ =~= old(out)@ + fixed_digits(n as nat, width as nat));
        }
    }
}

/// The hexadecimal digit character for `d`, which must be below sixteen;
/// letters are upper case.
pub open spec fn hex_digit_char(d: nat) -> char {
    if d == 0 { '0' }
    else if d == 1 { '1' }
    else if d == 2 { '2' }
    else if d == 3 { '3' }
    else if d == 4 { '4' }
    else if d == 5 { '5' }
    else if d == 6 { '6' }
    else if d == 7 { '7' }
    else if d == 8 { '8' }
    else if d == 9 { '9' }
    else if d == 10 { 'A' }
    else if d == 11 { 'B' }
    else if d == 12 { 'C' }
    else if d == 13 { 'D' }
    else if d == 14 { 'E' }
    else { 'F' }
}

/// Two upper-case hexadecimal digits of a byte.
pub open spec fn hex_byte(b: nat) -> Seq<char> {
    seq![hex_digit_char(b / 16), hex_digit_char(b % 16)]
}

/// Appends the single hexadecimal digit `d` in upper case.
fn push_hex_digit(out: &mut String, d: u8)
    requires
        d < 16,
    ensures
        final(out)@ == old(out)@ + seq![hex_digit_char(d as nat)],
{
    let s: &str = match d {
        0 => "0",
        1 => "1",
        2 => "2",
        3 => "3",
        4 => "4",
        5 => "5",
        6 => "6",
        7 => "7",
        8 => "8",
        9 => "9",
        10 => "A",
        11 => "B",
        12 => "C",
        13 => "D",
        14 => "E",
        _ => "F",
    };
    proof {
        reveal_strlit("0");
        reveal_strlit("1");
        reveal_strlit("2");
        reveal_strlit("3");
        reveal_strlit("4");
        reveal_strlit("5");
        reveal_strlit("6");
        reveal_strlit("7");
        reveal_strlit("8");
        reveal_strlit("9");
        reveal_strlit("A");
        reveal_strlit("B");
        reveal_strlit("C");
        reveal_strlit("D");
        reveal_strlit("E");
        reveal_strlit("F");
        assert(s@ =~= seq![hex_digit_char(d as nat)]);
    }
    out.append(s);
}

/// Appends the two upper-case hexadecimal digits of `b`.
fn push_hex_byte(out: &mut String, b: u8)
    ensures
        final(out)@ == old(out)@ + hex_byte(b as nat),
{
    push_hex_digit(out, b / 16);
    push_hex_digit(out, b % 16);
    proof {
        assert(out@ =~= old(out)@ + hex_byte(b as nat));
    }
}

/// A typed attribute value that knows its canonical textual form.
///
/// Formatting is total: `render_value` succeeds on every well-typed value
/// and appends exactly the text that `value_text` describes.
pub trait AttributeValue {
    /// The canonical attribute-value text.
    spec fn value_text(&self) -> Seq<char>;

    /// Appends the canonical attribute-value text to `out`.
    fn render_value(&self, out: &mut String)
        ensures
            final(out)@ == old(out)@ + self.value_text(),
    ;
}

/// The text of one rendered attribute: a leading space, the key, `="`,
/// the value text, and a closing quote.
pub open spec fn attr_text(name: Seq<char>, value: Seq<char>) -> Seq<char> {
    seq![' '] + name + "=\""@ + value + "\""@
}

/// The text of one optional attribute: empty when the value is absent.
pub open spec fn opt_attr_text<T: AttributeValue>(name: Seq<char>, v: Option<T>) -> Seq<char> {
    match v {
        Option::Some(x) => attr_text(name, x.value_text()),
        Option::None => Seq::empty(),
    }
}

/// The text of a boolean-flag attribute: absent when the flag is off, and
/// the key doubling as its own value when the flag is on.
pub open spec fn flag_text(name: Seq<char>, set: bool) -> Seq<char> {
    if set {
        attr_text(name, name)
    } else {
        Seq::empty()
    }
}

/// Renders an attribute whose value is always present.
pub fn render_required_attribute<T: AttributeValue>(out: &mut String, name: &str, value: &T)
    ensures
        final(out)@ == old(out)@ + attr_text(name@, value.value_text()),
{
    out.append(" ");
    out.append(name);
    out.append("=\"");
    value.render_value(out);
    out.append("\"");
    proof {
        reveal_strlit(" ");
        assert(out@ =~= old(out)@ + attr_text(name@, value.value_text()));
    }
}

/// Renders an optional attribute; absent values leave the output unchanged.
pub fn render_generic_attribute<T: AttributeValue>(out: &mut String, name: &str, value: &Option<T>)
    ensures
        final(out)@ == old(out)@ + opt_attr_text(name@, *value),
{
    match value {
        Option::Some(v) => {
            render_required_attribute(out, name, v);
        }
        Option::None => {}
    }
}

/// Renders an attribute with a fixed keyword value.
pub fn render_keyword_attribute(out: &mut String, name: &str, value: &str)
    ensures
        final(out)@ == old(out)@ + attr_text(name@, value@),
{
    out.append(" ");
    out.append(name);
    out.append("=\"");
    out.append(value);
    out.append("\"");
    proof {
        reveal_strlit(" ");
        assert(out@ =~= old(out)@ + attr_text(name@, value@));
    }
}

/// Renders a boolean-flag attribute, whose key doubles as its own value.
pub fn render_flag_attribute(out: &mut String, name: &str, set: bool)
    ensures
        final(out)@ == old(out)@ + flag_text(name@, set),
{
    if set {
        out.append(" ");
        out.append(name);
        out.append("=\"");
        out.append(name);
        out.append("\"");
        proof {
            reveal_strlit(" ");
            assert(out@ =~= old(out)@ + flag_text(name@, set));
        }
    }
}

/// The given texts joined with `, ` between neighbours.
pub open spec fn joined_text(items: Seq<Seq<char>>) -> Seq<char>
    decreases items.len(),
{
    if items.len() == 0 {
        Seq::empty()
    } else if items.len() == 1 {
        items[0]
    } else {
        joined_text(items.drop_last()) + ", "@ + items.last()
    }
}

/// The text of a list-valued attribute: absent when the list is empty,
/// otherwise the items joined with `, `.
pub open spec fn list_attr_text(name: Seq<char>, items: Seq<Seq<char>>) -> Seq<char> {
    if items.len() == 0 {
        Seq::empty()
    } else {
        attr_text(name, joined_text(items))
    }
}

/// Appends the given strings joined with `, `.
fn push_joined(out: &mut String, items: &Vec<String>)
    ensures
        final(out)@ == old(out)@ + joined_text(items@.map_values(|s: String| s@)),
{
    let ghost m = items@.map_values(|s: String| s@);
    let mut i: usize = 0;
    while i < items.len()
        invariant
            i <= items.len(),
            m == items@.map_values(|s: String| s@),
            out@ == old(out)@ + joined_text(m.take(i as int)),
        decreases items.len() - i,
    {
        if i > 0 {
            out.append(", ");
        }
        out.append(items[i].as_str());
        proof {
            assert(m.take(i + 1 as int).drop_last() =~= m.take(i as int));
            assert(m.take(i + 1 as int).last() == m[i as int]);
            assert(out@ =~= old(out)@ + joined_text(m.take(i + 1 as int)));
        }
        i = i + 1;
    }
    proof {
        assert(m.take(items.len() as int) =~= m);
    }
}

/// Renders a list-valued attribute; an empty list leaves the output
/// unchanged.
pub fn render_string_list_attribute(out: &mut String, name: &str, items: &Vec<String>)
    ensures
        final(out)@ == old(out)@ + list_attr_text(name@, items@.map_values(|s: String| s@)),
{
    if items.len() > 0 {
        out.append(" ");
        out.append(name);
        out.append("=\"");
        push_joined(out, items);
        out.append("\"");
        proof {
            reveal_strlit(" ");
            assert(out@ =~= old(out)@ + list_attr_text(
                name@,
                items@.map_values(|s: String| s@),
            ));
        }
    }
}

/// Renders the `css-class` attribute from a list of class names.
pub fn render_css_class(out: &mut String, css_class: &Vec<CssClass>)
    ensures
        final(out)@ == old(out)@ + list_attr_text(
            "css-class"@,
            css_class@.map_values(|s: String| s@),
        ),
{
    render_string_list_attribute(out, "css-class", css_class);
}

impl AttributeValue for String {
    open spec fn value_text(&self) -> Seq<char> {
        self@
    }

    fn render_value(&self, out: &mut String) {
        out.append(self.as_str());
    }
}

impl AttributeValue for u32 {
    open spec fn value_text(&self) -> Seq<char> {
        dec_digits(*self as nat)
    }

    fn render_value(&self, out: &mut String) {
        push_u32(out, *self);
    }
}

impl AttributeValue for bool {
    open spec fn value_text(&self) -> Seq<char> {
        if *self {
            "true"@
        } else {
            "false"@
        }
    }

    fn render_value(&self, out: &mut String) {
        if *self {
            out.append("true");
        } else {
            out.append("false");
        }
    }
}

/// Horizontal alignment of an element.
#[derive(Debug, Clone, Copy, PartialEq, Eq)]
pub enum Alignment {
    Left,
    Center,
    Right,
}

impl AttributeValue for Alignment {
    open spec fn value_text(&self) -> Seq<char> {
        match self {
            Alignment::Left => "left"@,
            Alignment::Center => "center"@,
            Alignment::Right => "right"@,
        }
    }

    fn render_value(&self, out: &mut String) {
        match self {
            Alignment::Left => out.append("left"),
            Alignment::Center => out.append("center"),
            Alignment::Right => out.append("right"),
        }
    }
}

/// Alignment of running text.
#[derive(Debug, Clone, Copy, PartialEq, Eq)]
pub enum TextAlignment {
    Left,
    Center,
    Right,
    Justify,
}

impl AttributeValue for TextAlignment {
    open spec fn value_text(&self) -> Seq<char> {
        match self {
            TextAlignment::Left => "left"@,
            TextAlignment::Center => "center"@,
            TextAlignment::Right => "right"@,
            TextAlignment::Justify => "justify"@,
        }
    }

    fn render_value(&self, out: &mut String) {
        match self {
            TextAlignment::Left => out.append("left"),
            TextAlignment::Center => out.append("center"),
            TextAlignment::Right => out.append("right"),
            TextAlignment::Justify => out.append("justify"),
        }
    }
}

/// Vertical alignment of an element.
#[derive(Debug, Clone, Copy, PartialEq, Eq)]
pub enum VerticalAlignment {
    Top,
    Center,
    Bottom,
}

impl AttributeValue for VerticalAlignment {
    open spec fn value_text(&self) -> Seq<char> {
        match self {
            VerticalAlignment::Top => "top"@,
            VerticalAlignment::Center => "center"@,
            VerticalAlignment::Bottom => "bottom"@,
        }
    }

    fn render_value(&self, out: &mut String) {
        match self {
            VerticalAlignment::Top => out.append("top"),
            VerticalAlignment::Center => out.append("center"),
            VerticalAlignment::Bottom => out.append("bottom"),
        }
    }
}

/// A length in whole pixels.
#[derive(Debug, Clone, Copy, PartialEq, Eq)]
pub struct SizePx(u32);

/// The canonical text of a pixel length: the value followed by `px`,
/// except that zero renders as the bare literal `0`.
pub open spec fn px_text(size: nat) -> Seq<char> {
    if size == 0 {
        "0"@
    } else {
        dec_digits(size) + "px"@
    }
}

impl SizePx {
    /// The pixel count this length was constructed from.
    pub closed spec fn spec_size(&self) -> u32 {
        self.0
    }

    pub fn new(size: u32) -> (r: Self)
        ensures
            r.spec_size() == size,
    {
        Self(size)
    }
}

impl AttributeValue for SizePx {
    open spec fn value_text(&self) -> Seq<char> {
        px_text(self.spec_size() as nat)
    }

    fn render_value(&self, out: &mut String) {
        if self.0 != 0 {
            push_u32(out, self.0);
            out.append("px");
            proof {
                assert(out@ =~= old(out)@ + self.value_text());
            }
        } else {
            out.append("0");
        }
    }
}

/// A decimal number with a fixed count of fraction digits; it stands in
/// for the fractional values of the markup dialect. It renders as the
/// whole part, then, when `frac_digits` is not zero, a point and exactly
/// `frac_digits` digits of the fraction, zero-padded on the left.
#[derive(Debug, Clone, Copy, PartialEq, Eq)]
pub struct Decimal {
    /// The part before the decimal point.
    pub whole: u32,
    /// The fraction, read as `frac_digits` decimal digits.
    pub frac: u32,
    /// How many digits of the fraction render; zero renders no point.
    pub frac_digits: u8,
}

/// The canonical text of a decimal value.
pub open spec fn decimal_text(d: Decimal) -> Seq<char> {
    if d.frac_digits == 0 {
        dec_digits(d.whole as nat)
    } else {
        dec_digits(d.whole as nat) + seq!['.'] + fixed_digits(d.frac as nat, d.frac_digits as nat)
    }
}

impl Decimal {
    /// A decimal with nothing after the point.
    pub fn whole(whole: u32) -> (r: Self)
        ensures
            r == (Decimal { whole, frac: 0, frac_digits: 0 }),
    {
        Decimal { whole, frac: 0, frac_digits: 0 }
    }

    /// Appends the canonical text of this decimal.
    pub fn render(&self, out: &mut String)
        ensures
            final(out)@ == old(out)@ + decimal_text(*self),
    {
        push_u32(out, self.whole);
        if self.frac_digits > 0 {
            out.append(".");
            push_fixed_u32(out, self.frac, self.frac_digits);
            proof {
                reveal_strlit(".");
                assert(out@ =~= old(out)@ + decimal_text(*self));
            }
        }
    }
}

/// A length in pixels or in `em` units.
#[derive(Debug, Clone, Copy, PartialEq)]
pub enum PxOrEm {
    Px(SizePx),
    Em(Decimal),
}

impl AttributeValue for PxOrEm {
    open spec fn value_text(&self) -> Seq<char> {
        match self {
            PxOrEm::Px(px) => px.value_text(),
            PxOrEm::Em(em) => decimal_text(*em) + "em"@,
        }
    }

    fn render_value(&self, out: &mut String) {
        match self {
            PxOrEm::Px(px) => px.render_value(out),
            PxOrEm::Em(em) => {
                em.render(out);
                out.append("em");
                proof {
                    assert(out@ =~= old(out)@ + self.value_text());
                }
            }
        }
    }
}

/// A length in pixels or as a percentage.
#[derive(Debug, Clone, Copy, PartialEq)]
pub enum PxOrPercent {
    Px(SizePx),
    Percent(Decimal),
}

impl AttributeValue for PxOrPercent {
    open spec fn value_text(&self) -> Seq<char> {
        match self {
            PxOrPercent::Px(px) => px.value_text(),
            PxOrPercent::Percent(p) => decimal_text(*p) + "%"@,
        }
    }

    fn render_value(&self, out: &mut String) {
        match self {
            PxOrPercent::Px(px) => px.render_value(out),
            PxOrPercent::Percent(p) => {
                p.render(out);
                out.append("%");
                proof {
                    assert(out@ =~= old(out)@ + self.value_text());
                }
            }
        }
    }
}

/// An RGBA color, rendered as `#RRGGBB` in upper case; the alpha
/// component is carried in the model but never rendered.
#[derive(Debug, Clone, Copy, PartialEq, Eq)]
pub struct Color {
    pub r: u8,
    pub g: u8,
    pub b: u8,
    pub a: u8,
}

/// The canonical text of a color: `#` and six upper-case hex digits.
pub open spec fn color_text(c: Color) -> Seq<char> {
    seq!['#'] + hex_byte(c.r as nat) + hex_byte(c.g as nat) + hex_byte(c.b as nat)
}

impl Color {
    /// A fully opaque color from its three components.
    pub fn rgb(r: u8, g: u8, b: u8) -> (c: Self)
        ensures
            c == (Color { r, g, b, a: 255 }),
    {
        Color { r, g, b, a: 255 }
    }

    /// A color from all four components.
    pub fn rgba(r: u8, g: u8, b: u8, a: u8) -> (c: Self)
        ensures
            c == (Color { r, g, b, a }),
    {
        Color { r, g, b, a }
    }
}

impl AttributeValue for Color {
    open spec fn value_text(&self) -> Seq<char> {
        color_text(*self)
    }

    fn render_value(&self, out: &mut String) {
        out.append("#");
        push_hex_byte(out, self.r);
        push_hex_byte(out, self.g);
        push_hex_byte(out, self.b);
        proof {
            reveal_strlit("#");
            assert(out@ =~= old(out)@ + color_text(*self));
        }
    }
}

/// One side of a padding box: a pixel length or the literal `inherit`.
#[derive(Debug, Clone, Copy, PartialEq, Eq)]
pub enum PaddingValue {
    Px(SizePx),
    Inherit,
}

impl AttributeValue for PaddingValue {
    open spec fn value_text(&self) -> Seq<char> {
        match self {
            PaddingValue::Px(px) => px.value_text(),
            PaddingValue::Inherit => "inherit"@,
        }
    }

    fn render_value(&self, out: &mut String) {
        match self {
            PaddingValue::Px(px) => px.render_value(out),
            PaddingValue::Inherit => out.append("inherit"),
        }
    }
}

/// A padding box; once present, all four sides always render.
pub struct Padding {
    pub top: PaddingValue,
    pub right: PaddingValue,
    pub bottom: PaddingValue,
    pub left: PaddingValue,
}

/// One side of a rendered padding box, e.g. ` padding-top="10px"`;
/// `suffix` carries the side name, `="` included.
pub open spec fn padding_side_text(
    prefix: Seq<char>,
    suffix: Seq<char>,
    v: PaddingValue,
) -> Seq<char> {
    seq![' '] + prefix + suffix + v.value_text() + "\""@
}

/// The four rendered sides of a padding box, in the fixed order bottom,
/// top, left, right.
pub open spec fn padding_text(prefix: Seq<char>, p: Padding) -> Seq<char> {
    padding_side_text(prefix, "-bottom=\""@, p.bottom)
        + padding_side_text(prefix, "-top=\""@, p.top)
        + padding_side_text(prefix, "-left=\""@, p.left)
        + padding_side_text(prefix, "-right=\""@, p.right)
}

/// The rendered text of an optional padding box: empty when absent.
pub open spec fn opt_padding_text(prefix: Seq<char>, p: Option<Padding>) -> Seq<char> {
    match p {
        Option::Some(pad) => padding_text(prefix, pad),
        Option::None => Seq::empty(),
    }
}

/// Appends one side of a padding box.
fn render_padding_side(out: &mut String, prefix: &str, suffix: &str, v: &PaddingValue)
    ensures
        final(out)@ == old(out)@ + padding_side_text(prefix@, suffix@, *v),
{
    out.append(" ");
    out.append(prefix);
    out.append(suffix);
    v.render_value(out);
    out.append("\"");
    proof {
        reveal_strlit(" ");
        assert(out@ =~= old(out)@ + padding_side_text(prefix@, suffix@, *v));
    }
}

/// Renders the four sides of a padding box under the given key prefix.
pub fn render_padding(out: &mut String, prefix: &str, padding: &Padding)
    ensures
        final(out)@ == old(out)@ + padding_text(prefix@, *padding),
{
    render_padding_side(out, prefix, "-bottom=\"", &padding.bottom);
    render_padding_side(out, prefix, "-top=\"", &padding.top);
    render_padding_side(out, prefix, "-left=\"", &padding.left);
    render_padding_side(out, prefix, "-right=\"", &padding.right);
    proof {
        assert(out@ =~= old(out)@ + padding_text(prefix@, *padding));
    }
}

/// Renders an optional padding box; absent boxes leave the output
/// unchanged.
pub fn render_padding_opt(out: &mut String, prefix: &str, padding: &Option<Padding>)
    ensures
        final(out)@ == old(out)@ + opt_padding_text(prefix@, *padding),
{
    match padding {
        Option::Some(p) => render_padding(out, prefix, p),
        Option::None => {}
    }
}

/// A border line style keyword.
#[derive(Debug, Clone, Copy, PartialEq, Eq)]
pub enum BorderStyle {
    Dashed,
    Dotted,
    Solid,
}

impl AttributeValue for BorderStyle {
    open spec fn value_text(&self) -> Seq<char> {
        match self {
            BorderStyle::Dashed => "dashed"@,
            BorderStyle::Dotted => "dotted"@,
            BorderStyle::Solid => "solid"@,
        }
    }

    fn render_value(&self, out: &mut String) {
        match self {
            BorderStyle::Dashed => out.append("dashed"),
            BorderStyle::Dotted => out.append("dotted"),
            BorderStyle::Solid => out.append("solid"),
        }
    }
}

/// A border specification: width, style and color, each optional.
pub struct BorderProperties {
    pub width: Option<SizePx>,
    pub style: Option<BorderStyle>,
    pub color: Option<Color>,
}

/// The text of an optional value, empty when absent.
pub open spec fn opt_value_text<T: AttributeValue>(v: Option<T>) -> Seq<char> {
    match v {
        Option::Some(x) => x.value_text(),
        Option::None => Seq::empty(),
    }
}

impl AttributeValue for BorderProperties {
    /// When width, style and color are all absent the border renders as
    /// the literal `none`; otherwise style, width and color follow one
    /// another directly, with no separator.
    open spec fn value_text(&self) -> Seq<char> {
        if self.width is None && self.style is None && self.color is None {
            "none"@
        } else {
            opt_value_text(self.style) + opt_value_text(self.width) + opt_value_text(self.color)
        }
    }

    fn render_value(&self, out: &mut String) {
        if self.width.is_none() && self.style.is_none() && self.color.is_none() {
            out.append("none");
        } else {
            match &self.style {
                Option::Some(style) => style.render_value(out),
                Option::None => {}
            }
            match &self.width {
                Option::Some(width) => width.render_value(out),
                Option::None => {}
            }
            match &self.color {
                Option::Some(color) => color.render_value(out),
                Option::None => {}
            }
            proof {
                assert(out@ =~= old(out)@ + self.value_text());
            }
        }
    }
}

/// A font style keyword.
#[derive(Debug, Clone, Copy, PartialEq, Eq)]
pub enum FontStyle {
    Normal,
    Italic,
    Oblique,
}

impl AttributeValue for FontStyle {
    open spec fn value_text(&self) -> Seq<char> {
        match self {
            FontStyle::Normal => "normal"@,
            FontStyle::Italic => "italic"@,
            FontStyle::Oblique => "oblique"@,
        }
    }

    fn render_value(&self, out: &mut String) {
        match self {
            FontStyle::Normal => out.append("normal"),
            FontStyle::Italic => out.append("italic"),
            FontStyle::Oblique => out.append("oblique"),
        }
    }
}

/// A text decoration keyword.
#[derive(Debug, Clone, Copy, PartialEq, Eq)]
pub enum TextDecoration {
    Underline,
    Overline,
    LineThrough,
    NoDecoration,
}

impl AttributeValue for TextDecoration {
    open spec fn value_text(&self) -> Seq<char> {
        match self {
            TextDecoration::Underline => "underline"@,
            TextDecoration::Overline => "overline"@,
            TextDecoration::LineThrough => "lineThrough"@,
            TextDecoration::NoDecoration => "none"@,
        }
    }

    fn render_value(&self, out: &mut String) {
        match self {
            TextDecoration::Underline => out.append("underline"),
            TextDecoration::Overline => out.append("overline"),
            TextDecoration::LineThrough => out.append("lineThrough"),
            TextDecoration::NoDecoration => out.append("none"),
        }
    }
}

/// A text transform keyword.
#[derive(Debug, Clone, Copy, PartialEq, Eq)]
pub enum TextTransform {
    Capitalize,
    Uppercase,
    Lowercase,
    NoTransform,
}

impl AttributeValue for TextTransform {
    open spec fn value_text(&self) -> Seq<char> {
        match self {
            TextTransform::Capitalize => "capitalize"@,
            TextTransform::Uppercase => "uppercase"@,
            TextTransform::Lowercase => "lowercase"@,
            TextTransform::NoTransform => "none"@,
        }
    }

    fn render_value(&self, out: &mut String) {
        match self {
            TextTransform::Capitalize => out.append("capitalize"),
            TextTransform::Uppercase => out.append("uppercase"),
            TextTransform::Lowercase => out.append("lowercase"),
            TextTransform::NoTransform => out.append("none"),
        }
    }
}

/// The writing direction of a container.
#[derive(Debug, Clone, Copy, PartialEq, Eq)]
pub enum Direction {
    Ltr,
    Rtl,
}

impl AttributeValue for Direction {
    open spec fn value_text(&self) -> Seq<char> {
        match self {
            Direction::Ltr => "ltr"@,
            Direction::Rtl => "rtl"@,
        }
    }

    fn render_value(&self, out: &mut String) {
        match self {
            Direction::Ltr => out.append("ltr"),
            Direction::Rtl => out.append("rtl"),
        }
    }
}

/// Law: every pixel length except zero renders as its decimal value
/// followed by `px`; zero renders as exactly the bare literal `0`.
pub proof fn lemma_px_formatting(px: SizePx)
    ensures
        px.spec_size() != 0 ==> px.value_text() == dec_digits(px.spec_size() as nat) + "px"@,
        px.spec_size() == 0 ==> px.value_text() == "0"@,
{
}

/// Law: a border spec whose width, style and color are all absent renders
/// as exactly the literal `none`; otherwise style, width and color follow
/// one another directly, with no separator.
pub proof fn lemma_border_none(b: BorderProperties)
    ensures
        (b.width is None && b.style is None && b.color is None) ==> b.value_text() == "none"@,
        !(b.width is None && b.style is None && b.color is None) ==> b.value_text()
            == opt_value_text(b.style) + opt_value_text(b.width) + opt_value_text(b.color),
{
}

/// Law: a boolean-flag attribute is absent from the output when the flag
/// is off, and renders with the key doubling as its own value when on.
pub proof fn lemma_flag_attribute(name: Seq<char>, set: bool)
    ensures
        !set ==> flag_text(name, set) == Seq::<char>::empty(),
        set ==> flag_text(name, set) == attr_text(name, name),
{
}

/// Renders the `font-family` attribute from a font stack.
pub fn render_font_family(out: &mut String, font_family: &Vec<String>)
    ensures
        final(out)@ == old(out)@ + list_attr_text(
            "font-family"@,
            font_family@.map_values(|s: String| s@),
        ),
{
    render_string_list_attribute(out, "font-family", font_family);
}

} // verus!
