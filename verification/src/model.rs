//! The document model: every markup element, the closed slot types that
//! restrict which element kinds may nest where, and the rendering engine.
//!
//! Every element renders through the same convention: `depth` indentation
//! units (one tab each), the open tag with its attributes in declared
//! order, then either `/>` for a void element or the nested content one
//! depth deeper followed by the matching close tag on its own line.
pub mod mj_accordion;
pub mod mj_button;
pub mod mj_body;
pub mod mj_carousel;
pub mod mj_column;
pub mod mj_divider;
pub mod mj_group;
pub mod mj_head;
pub mod mj_hero;
pub mod mj_image;
pub mod mj_navbar;
pub mod mj_raw;
pub mod mj_section;
pub mod mj_social;
pub mod mj_spacer;
pub mod mj_table;
pub mod mj_text;
pub mod mj_wrapper;
pub mod mjml;
pub mod utils;

use vstd::prelude::*;
use vstd::string::StringExecFns;

use crate::model::mj_accordion::MjAccordion;
use crate::model::mj_button::MjButton;
use crate::model::mj_carousel::MjCarousel;
use crate::model::mj_column::MjColumn;
use crate::model::mj_divider::MjDivider;
use crate::model::mj_group::MjGroup;
use crate::model::mj_hero::MjHero;
use crate::model::mj_image::MjImage;
use crate::model::mj_navbar::MjNavbar;
use crate::model::mj_raw::MjRaw;
use crate::model::mj_section::MjSection;
use crate::model::mj_social::MjSocial;
use crate::model::mj_spacer::MjSpacer;
use crate::model::mj_table::MjTable;
use crate::model::mj_text::MjText;
use crate::model::mj_wrapper::MjWrapper;
use crate::model::utils::indent_text;

pub use utils::build_indentation;
pub use utils::Alignment;
pub use utils::AttributeValue;
pub use utils::BorderProperties;
pub use utils::BorderStyle;
pub use utils::Color;
pub use utils::Css;
pub use utils::CssClass;
pub use utils::Decimal;
pub use utils::Direction;
pub use utils::FontStyle;
pub use utils::Html;
pub use utils::Padding;
pub use utils::PaddingValue;
pub use utils::PxOrEm;
pub use utils::PxOrPercent;
pub use utils::SizePx;
pub use utils::TextAlignment;
pub use utils::TextDecoration;
pub use utils::TextTransform;
pub use utils::Url;
pub use utils::VerticalAlignment;

verus! {

/// The start of a rendered tag line: the indentation, `<`, the tag name,
/// and the rendered attributes.
pub open spec fn open_tag_text(depth: nat, name: Seq<char>, attrs: Seq<char>) -> Seq<char> {
    indent_text(depth) + "<"@ + name + attrs
}

/// The whole rendered text of one node: the open tag line, then, when the
/// node has content, the inner payload and a matching close tag line;
/// void nodes close their only line with `/>` instead.
pub open spec fn node_text(
    depth: nat,
    name: Seq<char>,
    attrs: Seq<char>,
    has_content: bool,
    inner: Seq<char>,
) -> Seq<char> {
    if has_content {
        open_tag_text(depth, name, attrs) + ">\n"@ + inner + indent_text(depth) + "</"@ + name
            + ">\n"@
    } else {
        open_tag_text(depth, name, attrs) + "/>\n"@
    }
}

/// One line of literal payload text at the given depth.
pub open spec fn text_line(depth: nat, content: Seq<char>) -> Seq<char> {
    indent_text(depth) + content + "\n"@
}

/// Appends the indentation and `<name` of an open tag.
pub(crate) fn push_open_tag(out: &mut String, depth: usize, name: &str)
    ensures
        final(out)@ == old(out)@ + indent_text(depth as nat) + "<"@ + name@,
{
    let ind = build_indentation(depth);
    out.append(ind.as_str());
    out.append("<");
    out.append(name);
    proof {
        assert(out@ =~= old(out)@ + indent_text(depth as nat) + "<"@ + name@);
    }
}

/// Appends the `>` and newline that end a content node's open tag.
pub(crate) fn push_tag_end(out: &mut String)
    ensures
        final(out)@ == old(out)@ + ">\n"@,
{
    out.append(">\n");
}

/// Appends the `/>` and newline that end a void node's only line.
pub(crate) fn push_void_end(out: &mut String)
    ensures
        final(out)@ == old(out)@ + "/>\n"@,
{
    out.append("/>\n");
}

/// Appends a close tag on its own indented line.
pub(crate) fn push_close_tag(out: &mut String, depth: usize, name: &str)
    ensures
        final(out)@ == old(out)@ + indent_text(depth as nat) + "</"@ + name@ + ">\n"@,
{
    let ind = build_indentation(depth);
    out.append(ind.as_str());
    out.append("</");
    out.append(name);
    out.append(">\n");
    proof {
        assert(out@ =~= old(out)@ + indent_text(depth as nat) + "</"@ + name@ + ">\n"@);
    }
}

/// Appends one line of literal payload text at the given depth.
pub(crate) fn push_text_line(out: &mut String, depth: usize, content: &str)
    ensures
        final(out)@ == old(out)@ + text_line(depth as nat, content@),
{
    let ind = build_indentation(depth);
    out.append(ind.as_str());
    out.append(content);
    out.append("\n");
    proof {
        assert(out@ =~= old(out)@ + text_line(depth as nat, content@));
    }
}

/// The larger of two naturals.
pub open spec fn nat_max(a: nat, b: nat) -> nat {
    if a >= b {
        a
    } else {
        b
    }
}

/// Any node kind that may stand directly inside a column, a group or a
/// hero. This closed set makes illegal nestings unrepresentable: a slot
/// holds one of exactly these variants, never an arbitrary type.
pub enum BaseComponent {
    Accordion(MjAccordion),
    Button(MjButton),
    Carousel(MjCarousel),
    Divider(MjDivider),
    Hero(MjHero),
    Image(MjImage),
    Navbar(MjNavbar),
    Raw(MjRaw),
    Section(MjSection),
    Social(MjSocial),
    Spacer(MjSpacer),
    Table(MjTable),
    Text(MjText),
    Wrapper(MjWrapper),
}

/// The node kinds a section slot accepts: exactly section, wrapper and
/// hero.
pub enum SectionCompatible {
    Section(MjSection),
    Wrapper(MjWrapper),
    Hero(MjHero),
}

/// The node kinds a column slot accepts: exactly column and group.
pub enum ColumnCompatible {
    Column(MjColumn),
    Group(MjGroup),
}

/// An element that may be placed in a body slot.
pub trait MjBodyComponent {
    /// The body-slot value this element becomes.
    spec fn as_base(self) -> BaseComponent;

    /// Wraps this element for a body slot.
    fn to_base_component(self) -> (r: BaseComponent)
        ensures
            r == self.as_base(),
    ;
}

/// An element that may be placed in a section slot.
pub trait MjBodySectionComponent {
    /// The section-slot value this element becomes.
    spec fn as_section(self) -> SectionCompatible;

    /// Wraps this element for a section slot.
    fn to_section(self) -> (r: SectionCompatible)
        ensures
            r == self.as_section(),
    ;
}

/// An element that may be placed in a column slot.
pub trait MjBodyColumnComponent {
    /// The column-slot value this element becomes.
    spec fn as_column(self) -> ColumnCompatible;

    /// Wraps this element for a column slot.
    fn to_column(self) -> (r: ColumnCompatible)
        ensures
            r == self.as_column(),
    ;
}

impl BaseComponent {
    /// The rendered text of the wrapped node at the given depth.
    pub open spec fn text(self, depth: nat) -> Seq<char>
        decreases self, 1int,
    {
        match self {
            BaseComponent::Accordion(x) => x.text(depth),
            BaseComponent::Button(x) => x.text(depth),
            BaseComponent::Carousel(x) => x.text(depth),
            BaseComponent::Divider(x) => x.text(depth),
            BaseComponent::Hero(x) => x.text(depth),
            BaseComponent::Image(x) => x.text(depth),
            BaseComponent::Navbar(x) => x.text(depth),
            BaseComponent::Raw(x) => x.text(depth),
            BaseComponent::Section(x) => x.text(depth),
            BaseComponent::Social(x) => x.text(depth),
            BaseComponent::Spacer(x) => x.text(depth),
            BaseComponent::Table(x) => x.text(depth),
            BaseComponent::Text(x) => x.text(depth),
            BaseComponent::Wrapper(x) => x.text(depth),
        }
    }

    /// How many nesting levels the wrapped node renders.
    pub open spec fn height(self) -> nat
        decreases self, 1int,
    {
        match self {
            BaseComponent::Accordion(x) => x.height(),
            BaseComponent::Button(x) => x.height(),
            BaseComponent::Carousel(x) => x.height(),
            BaseComponent::Divider(x) => x.height(),
            BaseComponent::Hero(x) => x.height(),
            BaseComponent::Image(x) => x.height(),
            BaseComponent::Navbar(x) => x.height(),
            BaseComponent::Raw(x) => x.height(),
            BaseComponent::Section(x) => x.height(),
            BaseComponent::Social(x) => x.height(),
            BaseComponent::Spacer(x) => x.height(),
            BaseComponent::Table(x) => x.height(),
            BaseComponent::Text(x) => x.height(),
            BaseComponent::Wrapper(x) => x.height(),
        }
    }

    /// Writes the wrapped node at the given depth.
    pub fn render(&self, out: &mut String, depth: usize)
        requires
            depth + self.height() <= usize::MAX,
        ensures
            final(out)@ == old(out)@ + self.text(depth as nat),
        decreases *self, 1int,
    {
        match self {
            BaseComponent::Accordion(x) => x.render(out, depth),
            BaseComponent::Button(x) => x.render(out, depth),
            BaseComponent::Carousel(x) => x.render(out, depth),
            BaseComponent::Divider(x) => x.render(out, depth),
            BaseComponent::Hero(x) => x.render(out, depth),
            BaseComponent::Image(x) => x.render(out, depth),
            BaseComponent::Navbar(x) => x.render(out, depth),
            BaseComponent::Raw(x) => x.render(out, depth),
            BaseComponent::Section(x) => x.render(out, depth),
            BaseComponent::Social(x) => x.render(out, depth),
            BaseComponent::Spacer(x) => x.render(out, depth),
            BaseComponent::Table(x) => x.render(out, depth),
            BaseComponent::Text(x) => x.render(out, depth),
            BaseComponent::Wrapper(x) => x.render(out, depth),
        }
    }
}

impl SectionCompatible {
    /// The rendered text of the wrapped node at the given depth.
    pub open spec fn text(self, depth: nat) -> Seq<char>
        decreases self, 1int,
    {
        match self {
            SectionCompatible::Section(x) => x.text(depth),
            SectionCompatible::Wrapper(x) => x.text(depth),
            SectionCompatible::Hero(x) => x.text(depth),
        }
    }

    /// How many nesting levels the wrapped node renders.
    pub open spec fn height(self) -> nat
        decreases self, 1int,
    {
        match self {
            SectionCompatible::Section(x) => x.height(),
            SectionCompatible::Wrapper(x) => x.height(),
            SectionCompatible::Hero(x) => x.height(),
        }
    }

    /// Writes the wrapped node at the given depth.
    pub fn render(&self, out: &mut String, depth: usize)
        requires
            depth + self.height() <= usize::MAX,
        ensures
            final(out)@ == old(out)@ + self.text(depth as nat),
        decreases *self, 1int,
    {
        match self {
            SectionCompatible::Section(x) => x.render(out, depth),
            SectionCompatible::Wrapper(x) => x.render(out, depth),
            SectionCompatible::Hero(x) => x.render(out, depth),
        }
    }
}

impl ColumnCompatible {
    /// The rendered text of the wrapped node at the given depth.
    pub open spec fn text(self, depth: nat) -> Seq<char>
        decreases self, 1int,
    {
        match self {
            ColumnCompatible::Column(x) => x.text(depth),
            ColumnCompatible::Group(x) => x.text(depth),
        }
    }

    /// How many nesting levels the wrapped node renders.
    pub open spec fn height(self) -> nat
        decreases self, 1int,
    {
        match self {
            ColumnCompatible::Column(x) => x.height(),
            ColumnCompatible::Group(x) => x.height(),
        }
    }

    /// Writes the wrapped node at the given depth.
    pub fn render(&self, out: &mut String, depth: usize)
        requires
            depth + self.height() <= usize::MAX,
        ensures
            final(out)@ == old(out)@ + self.text(depth as nat),
        decreases *self, 1int,
    {
        match self {
            ColumnCompatible::Column(x) => x.render(out, depth),
            ColumnCompatible::Group(x) => x.render(out, depth),
        }
    }
}

/// The rendered text of a run of body-slot children, in order.
pub open spec fn base_children_text(s: Seq<BaseComponent>, depth: nat) -> Seq<char>
    decreases s, 2int,
{
    if s.len() == 0 {
        Seq::empty()
    } else {
        base_children_text(s.drop_last(), depth) + s.last().text(depth)
    }
}

/// The rendered text of a run of section-slot children, in order.
pub open spec fn section_children_text(s: Seq<SectionCompatible>, depth: nat) -> Seq<char>
    decreases s, 2int,
{
    if s.len() == 0 {
        Seq::empty()
    } else {
        section_children_text(s.drop_last(), depth) + s.last().text(depth)
    }
}

/// The rendered text of a run of column-slot children, in order.
pub open spec fn column_children_text(s: Seq<ColumnCompatible>, depth: nat) -> Seq<char>
    decreases s, 2int,
{
    if s.len() == 0 {
        Seq::empty()
    } else {
        column_children_text(s.drop_last(), depth) + s.last().text(depth)
    }
}

/// The tallest of a run of body-slot children.
pub open spec fn max_height_base(s: Seq<BaseComponent>) -> nat
    decreases s, 2int,
{
    if s.len() == 0 {
        0
    } else {
        nat_max(max_height_base(s.drop_last()), s.last().height())
    }
}

/// The tallest of a run of section-slot children.
pub open spec fn max_height_section(s: Seq<SectionCompatible>) -> nat
    decreases s, 2int,
{
    if s.len() == 0 {
        0
    } else {
        nat_max(max_height_section(s.drop_last()), s.last().height())
    }
}

/// The tallest of a run of column-slot children.
pub open spec fn max_height_column(s: Seq<ColumnCompatible>) -> nat
    decreases s, 2int,
{
    if s.len() == 0 {
        0
    } else {
        nat_max(max_height_column(s.drop_last()), s.last().height())
    }
}

/// No body-slot child is taller than the run's maximum.
pub proof fn lemma_max_height_base(s: Seq<BaseComponent>, i: int)
    requires
        0 <= i < s.len(),
    ensures
        s[i].height() <= max_height_base(s),
    decreases s.len(),
{
    if i < s.len() - 1 {
        lemma_max_height_base(s.drop_last(), i);
    }
}

/// No section-slot child is taller than the run's maximum.
pub proof fn lemma_max_height_section(s: Seq<SectionCompatible>, i: int)
    requires
        0 <= i < s.len(),
    ensures
        s[i].height() <= max_height_section(s),
    decreases s.len(),
{
    if i < s.len() - 1 {
        lemma_max_height_section(s.drop_last(), i);
    }
}

/// No column-slot child is taller than the run's maximum.
pub proof fn lemma_max_height_column(s: Seq<ColumnCompatible>, i: int)
    requires
        0 <= i < s.len(),
    ensures
        s[i].height() <= max_height_column(s),
    decreases s.len(),
{
    if i < s.len() - 1 {
        lemma_max_height_column(s.drop_last(), i);
    }
}

/// Writes a run of body-slot children, each at the given depth.
#[verifier::loop_isolation(false)]
pub(crate) fn render_base_children(out: &mut String, items: &Vec<BaseComponent>, depth: usize)
    requires
        depth + max_height_base(items@) <= usize::MAX,
    ensures
        final(out)@ == old(out)@ + base_children_text(items@, depth as nat),
    decreases *items, 2int,
{
    let mut i: usize = 0;
    while i < items.len()
        invariant
            i <= items.len(),
            out@ == old(out)@ + base_children_text(items@.take(i as int), depth as nat),
        decreases items.len() - i,
    {
        proof {
            lemma_max_height_base(items@, i as int);
        }
        items[i].render(out, depth);
        proof {
            broadcast use crate::model::utils::lemma_seq_add_assoc;

            assert(items@.take(i + 1 as int).drop_last() =~= items@.take(i as int));
            assert(items@.take(i + 1 as int).last() == items@[i as int]);
            assert(out@ == old(out)@ + base_children_text(items@.take(i + 1 as int), depth as nat));
        }
        i = i + 1;
    }
    proof {
        assert(items@.take(items.len() as int) =~= items@);
    }
}

/// Writes a run of section-slot children, each at the given depth.
#[verifier::loop_isolation(false)]
pub(crate) fn render_section_children(
    out: &mut String,
    items: &Vec<SectionCompatible>,
    depth: usize,
)
    requires
        depth + max_height_section(items@) <= usize::MAX,
    ensures
        final(out)@ == old(out)@ + section_children_text(items@, depth as nat),
    decreases *items, 2int,
{
    let mut i: usize = 0;
    while i < items.len()
        invariant
            i <= items.len(),
            out@ == old(out)@ + section_children_text(items@.take(i as int), depth as nat),
        decreases items.len() - i,
    {
        proof {
            lemma_max_height_section(items@, i as int);
        }
        items[i].render(out, depth);
        proof {
            broadcast use crate::model::utils::lemma_seq_add_assoc;

            assert(items@.take(i + 1 as int).drop_last() =~= items@.take(i as int));
            assert(items@.take(i + 1 as int).last() == items@[i as int]);
            assert(out@ == old(out)@ + section_children_text(
                items@.take(i + 1 as int),
                depth as nat,
            ));
        }
        i = i + 1;
    }
    proof {
        assert(items@.take(items.len() as int) =~= items@);
    }
}

/// Writes a run of column-slot children, each at the given depth.
#[verifier::loop_isolation(false)]
pub(crate) fn render_column_children(
    out: &mut String,
    items: &Vec<ColumnCompatible>,
    depth: usize,
)
    requires
        depth + max_height_column(items@) <= usize::MAX,
    ensures
        final(out)@ == old(out)@ + column_children_text(items@, depth as nat),
    decreases *items, 2int,
{
    let mut i: usize = 0;
    while i < items.len()
        invariant
            i <= items.len(),
            out@ == old(out)@ + column_children_text(items@.take(i as int), depth as nat),
        decreases items.len() - i,
    {
        proof {
            lemma_max_height_column(items@, i as int);
        }
        items[i].render(out, depth);
        proof {
            broadcast use crate::model::utils::lemma_seq_add_assoc;

            assert(items@.take(i + 1 as int).drop_last() =~= items@.take(i as int));
            assert(items@.take(i + 1 as int).last() == items@[i as int]);
            assert(out@ == old(out)@ + column_children_text(
                items@.take(i + 1 as int),
                depth as nat,
            ));
        }
        i = i + 1;
    }
    proof {
        assert(items@.take(items.len() as int) =~= items@);
    }
}


/// Holds when a text block begins with exactly `depth` indentation units:
/// `depth` tabs and then the `<` of an opening tag.
pub open spec fn starts_tag_line(t: Seq<char>, depth: nat) -> bool {
    &&& t.len() > depth
    &&& forall|i: int| 0 <= i < depth ==> t[i] == '\t'
    &&& t[depth as int] == '<'
}

/// The rendered text of any node begins with its indentation and `<`.
proof fn lemma_node_text_starts(
    depth: nat,
    name: Seq<char>,
    attrs: Seq<char>,
    has_content: bool,
    inner: Seq<char>,
)
    ensures
        starts_tag_line(node_text(depth, name, attrs, has_content, inner), depth),
{
    reveal_strlit("<");
    let t = node_text(depth, name, attrs, has_content, inner);
    assert forall|i: int| 0 <= i < depth implies t[i] == '\t' by {
        assert(t[i] == indent_text(depth)[i]);
    }
    assert(t[depth as int] == "<"@[0]);
}

/// Law: a node without content renders as a single self-closing tag line.
/// When neither the tag name nor the attribute text carries a newline,
/// the line's one newline is its final character.
pub proof fn lemma_void_node_single_line(depth: nat, name: Seq<char>, attrs: Seq<char>)
    requires
        forall|i: int| 0 <= i < name.len() ==> name[i] != '\n',
        forall|i: int| 0 <= i < attrs.len() ==> attrs[i] != '\n',
    ensures
        node_text(depth, name, attrs, false, Seq::empty()) == indent_text(depth) + "<"@ + name
            + attrs + "/>\n"@,
        node_text(depth, name, attrs, false, Seq::empty()).len() == depth + 1 + name.len()
            + attrs.len() + 3,
        forall|i: int|
            0 <= i < depth + name.len() + attrs.len() + 3 ==> #[trigger] node_text(
                depth,
                name,
                attrs,
                false,
                Seq::empty(),
            )[i] != '\n',
        node_text(depth, name, attrs, false, Seq::empty()).last() == '\n',
{
    reveal_strlit("<");
    reveal_strlit("/>\n");
    let t = node_text(depth, name, attrs, false, Seq::empty());
    assert(t.len() == depth + 1 + name.len() + attrs.len() + 3);
    assert forall|i: int| 0 <= i < depth + name.len() + attrs.len() + 3 implies t[i] != '\n' by {
        if i < depth {
            assert(t[i] == indent_text(depth)[i]);
        } else if i == depth {
            assert(t[i] == "<"@[0]);
        } else if i < depth + 1 + name.len() {
            assert(t[i] == name[i - depth - 1]);
        } else if i < depth + 1 + name.len() + attrs.len() {
            assert(t[i] == attrs[i - depth - 1 - name.len()]);
        } else {
            assert(t[i] == "/>\n"@[i - depth - 1 - name.len() - attrs.len()]);
        }
    }
    assert(t.last() == "/>\n"@[2]);
}

/// Law: a node with content renders as an open tag line, the nested
/// payload unchanged between them, and a close tag line naming the same
/// tag at the same indentation.
pub proof fn lemma_content_node_structure(
    depth: nat,
    name: Seq<char>,
    attrs: Seq<char>,
    inner: Seq<char>,
)
    ensures
        node_text(depth, name, attrs, true, inner) == (indent_text(depth) + "<"@ + name + attrs
            + ">\n"@) + inner + (indent_text(depth) + "</"@ + name + ">\n"@),
{
    broadcast use crate::model::utils::lemma_seq_add_assoc;

}

/// Law: a body-slot node rendered at a given depth begins with exactly
/// that many indentation units before its opening tag; a container's
/// children, rendered one depth deeper, are therefore indented exactly
/// one more unit than its own opening tag.
pub proof fn lemma_base_component_indentation(c: BaseComponent, depth: nat)
    ensures
        starts_tag_line(c.text(depth), depth),
{
    match c {
        BaseComponent::Accordion(x) => {
            reveal(MjAccordion::text);
            lemma_node_text_starts(depth, "mj-accordion"@, x.attributes.text(), true, x.content_text(depth + 1));
        }
        BaseComponent::Button(x) => {
            reveal(MjButton::text);
            lemma_node_text_starts(depth, "mj-button"@, x.attributes.text(), true, x.content_text(depth + 1));
        }
        BaseComponent::Carousel(x) => {
            reveal(MjCarousel::text);
            lemma_node_text_starts(depth, "mj-carousel"@, x.attributes.text(), true, x.content_text(depth + 1));
        }
        BaseComponent::Divider(x) => {
            reveal(MjDivider::text);
            lemma_node_text_starts(depth, "mj-divider"@, x.attributes.text(), false, Seq::empty());
        }
        BaseComponent::Hero(x) => {
            lemma_node_text_starts(depth, "mj-hero"@, x.attributes.text(), true, x.content_text(depth + 1));
        }
        BaseComponent::Image(x) => {
            reveal(MjImage::text);
            lemma_node_text_starts(depth, "mj-image"@, x.attributes.text(), false, Seq::empty());
        }
        BaseComponent::Navbar(x) => {
            reveal(MjNavbar::text);
            lemma_node_text_starts(depth, "mj-navbar"@, x.attributes.text(), true, x.content_text(depth + 1));
        }
        BaseComponent::Raw(x) => {
            reveal(MjRaw::text);
            lemma_node_text_starts(depth, "mj-raw"@, Seq::empty(), true, x.content_text(depth + 1));
        }
        BaseComponent::Section(x) => {
            lemma_node_text_starts(depth, "mj-section"@, x.attributes.text(), true, x.content_text(depth + 1));
        }
        BaseComponent::Social(x) => {
            reveal(MjSocial::text);
            lemma_node_text_starts(depth, "mj-social"@, x.attributes.text(), true, x.content_text(depth + 1));
        }
        BaseComponent::Spacer(x) => {
            reveal(MjSpacer::text);
            lemma_node_text_starts(depth, "mj-spacer"@, x.attributes.text(), false, Seq::empty());
        }
        BaseComponent::Table(x) => {
            reveal(MjTable::text);
            lemma_node_text_starts(depth, "mj-table"@, x.attributes.text(), true, x.content_text(depth + 1));
        }
        BaseComponent::Text(x) => {
            reveal(MjText::text);
            lemma_node_text_starts(depth, "mj-text"@, x.attributes.text(), true, x.content_text(depth + 1));
        }
        BaseComponent::Wrapper(x) => {
            lemma_node_text_starts(depth, "mj-wrapper"@, x.attributes.text(), true, x.content_text(depth + 1));
        }
    }
}

/// Law: a section-slot node rendered at a given depth begins with exactly
/// that many indentation units before its opening tag.
pub proof fn lemma_section_compatible_indentation(c: SectionCompatible, depth: nat)
    ensures
        starts_tag_line(c.text(depth), depth),
{
    match c {
        SectionCompatible::Section(x) => {
            lemma_base_component_indentation(BaseComponent::Section(x), depth);
        }
        SectionCompatible::Wrapper(x) => {
            lemma_base_component_indentation(BaseComponent::Wrapper(x), depth);
        }
        SectionCompatible::Hero(x) => {
            lemma_base_component_indentation(BaseComponent::Hero(x), depth);
        }
    }
}

/// Law: a column-slot node rendered at a given depth begins with exactly
/// that many indentation units before its opening tag.
pub proof fn lemma_column_compatible_indentation(c: ColumnCompatible, depth: nat)
    ensures
        starts_tag_line(c.text(depth), depth),
{
    match c {
        ColumnCompatible::Column(x) => {
            lemma_node_text_starts(depth, "mj-column"@, x.attributes.text(), true, x.content_text(depth + 1));
        }
        ColumnCompatible::Group(x) => {
            lemma_node_text_starts(depth, "mj-group"@, x.attributes.text(), true, x.content_text(depth + 1));
        }
    }
}

/// Law: a literal payload line rendered one depth below its node starts
/// with exactly that depth's indentation units.
pub proof fn lemma_text_line_indentation(depth: nat, content: Seq<char>)
    ensures
        text_line(depth, content).len() == depth + content.len() + 1,
        forall|i: int| 0 <= i < depth ==> #[trigger] text_line(depth, content)[i] == '\t',
        text_line(depth, content).last() == '\n',
{
    reveal_strlit("\n");
    let t = text_line(depth, content);
    assert forall|i: int| 0 <= i < depth implies t[i] == '\t' by {
        assert(t[i] == indent_text(depth)[i]);
    }
    assert(t.last() == "\n"@[0]);
}

} // verus!
