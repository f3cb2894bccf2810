//! The `mj-accordion` element and its fixed-shape sub-elements: each
//! entry holds exactly one title and one text sub-block.
use vstd::prelude::*;

use vstd::string::StringExecFns;
use crate::model::utils::list_attr_text;
use crate::model::utils::opt_attr_text;
use crate::model::utils::opt_padding_text;
use crate::model::utils::render_css_class;
use crate::model::utils::render_font_family;
use crate::model::utils::render_generic_attribute;
use crate::model::utils::render_padding_opt;
use crate::model::utils::Alignment;
use crate::model::utils::AttributeValue;
use crate::model::utils::BorderProperties;
use crate::model::utils::Color;
use crate::model::utils::CssClass;
use crate::model::utils::Html;
use crate::model::utils::Padding;
use crate::model::utils::PxOrEm;
use crate::model::utils::SizePx;
use crate::model::utils::Url;
use crate::model::{
    BaseComponent,
    MjBodyComponent,
    node_text,
    push_close_tag,
    push_open_tag,
    push_tag_end,
    push_text_line,
    text_line,
};

verus! {

/// A collapsible-content block: an ordered run of accordion elements.
pub struct MjAccordion {
    pub elements: Vec<MjAccordionElement>,
    pub attributes: MjAccordionAttributes,
}

/// One accordion entry: exactly one title sub-block and one text
/// sub-block, in that fixed order.
pub struct MjAccordionElement {
    pub title: MjAccordionElementTitle,
    pub text: MjAccordionElementText,
    pub attributes: MjAccordionElementAttributes,
}

/// The clickable title line of an accordion entry.
pub struct MjAccordionElementTitle {
    pub content: Html,
    pub attributes: MjAccordionElementTitleAttributes,
}

/// The expandable body of an accordion entry.
pub struct MjAccordionElementText {
    pub content: Html,
    pub attributes: MjAccordionElementTextAttributes,
}

#[derive(Default)]
pub struct MjAccordionElementTitleAttributes {
    pub background_color: Option<Color>,
    pub color: Option<Color>,
    pub css_class: Vec<CssClass>,
    pub font_family: Vec<String>,
    pub font_size: Option<SizePx>,
    pub padding: Option<Padding>,
}

#[derive(Default)]
pub struct MjAccordionElementTextAttributes {
    pub background_color: Option<Color>,
    pub color: Option<Color>,
    pub css_class: Vec<CssClass>,
    pub font_family: Vec<String>,
    pub font_size: Option<SizePx>,
    pub font_weight: Option<u32>,
    pub letter_spacing: Option<PxOrEm>,
    pub line_height: Option<SizePx>,
    pub padding: Option<Padding>,
}

/// Which side the expand icon sits on.
#[derive(Debug, Clone, Copy, PartialEq, Eq)]
pub enum IconPosition {
    Left,
    Right,
}

impl AttributeValue for IconPosition {
    open spec fn value_text(&self) -> Seq<char> {
        match self {
            IconPosition::Left => "left"@,
            IconPosition::Right => "right"@,
        }
    }

    fn render_value(&self, out: &mut String) {
        match self {
            IconPosition::Left => out.append("left"),
            IconPosition::Right => out.append("right"),
        }
    }
}

#[derive(Default)]
pub struct MjAccordionElementAttributes {
    pub background_color: Option<Color>,
    pub border: Option<BorderProperties>,
    pub css_class: Vec<CssClass>,
    pub font_family: Vec<String>,
    pub icon_align: Option<Alignment>,
    pub icon_height: Option<SizePx>,
    pub icon_position: Option<IconPosition>,
    pub icon_unwrapped_alt: Option<String>,
    pub icon_unwrapped_url: Option<Url>,
    pub icon_width: Option<SizePx>,
    pub icon_wrapped_alt: Option<String>,
    pub icon_wrapped_url: Option<Url>,
}

#[derive(Default)]
pub struct MjAccordionAttributes {
    pub border: Option<BorderProperties>,
    pub container_background_color: Option<Color>,
    pub css_class: Vec<CssClass>,
    pub font_family: Vec<String>,
    pub icon_align: Option<Alignment>,
    pub icon_height: Option<SizePx>,
    pub icon_position: Option<IconPosition>,
    pub icon_unwrapped_alt: Option<String>,
    pub icon_unwrapped_url: Option<Url>,
    pub icon_width: Option<SizePx>,
    pub icon_wrapped_alt: Option<String>,
    pub icon_wrapped_url: Option<Url>,
    pub padding: Option<Padding>,
}

impl MjAccordionAttributes {
    /// The rendered attribute text, in declared order.
    #[verifier::opaque]
    pub open spec fn text(self) -> Seq<char> {
        opt_attr_text("border"@, self.border)
            + opt_attr_text("container-background-color"@, self.container_background_color)
            + list_attr_text("css-class"@, self.css_class@.map_values(|s: String| s@))
            + list_attr_text("font-family"@, self.font_family@.map_values(|s: String| s@))
            + opt_attr_text("icon-align"@, self.icon_align)
            + opt_attr_text("icon-height"@, self.icon_height)
            + opt_attr_text("icon-position"@, self.icon_position)
            + opt_attr_text("icon-unwrapped-alt"@, self.icon_unwrapped_alt)
            + opt_attr_text("icon-unwrapped-url"@, self.icon_unwrapped_url)
            + opt_attr_text("icon-width"@, self.icon_width)
            + opt_attr_text("icon-wrapped-alt"@, self.icon_wrapped_alt)
            + opt_attr_text("icon-wrapped-url"@, self.icon_wrapped_url)
            + opt_padding_text("padding"@, self.padding)
    }

    pub fn render(&self, out: &mut String)
        ensures
            final(out)@ == old(out)@ + self.text(),
    {
        render_generic_attribute(out, "border", &self.border);
        render_generic_attribute(out, "container-background-color", &self.container_background_color);
        render_css_class(out, &self.css_class);
        render_font_family(out, &self.font_family);
        render_generic_attribute(out, "icon-align", &self.icon_align);
        render_generic_attribute(out, "icon-height", &self.icon_height);
        render_generic_attribute(out, "icon-position", &self.icon_position);
        render_generic_attribute(out, "icon-unwrapped-alt", &self.icon_unwrapped_alt);
        render_generic_attribute(out, "icon-unwrapped-url", &self.icon_unwrapped_url);
        render_generic_attribute(out, "icon-width", &self.icon_width);
        render_generic_attribute(out, "icon-wrapped-alt", &self.icon_wrapped_alt);
        render_generic_attribute(out, "icon-wrapped-url", &self.icon_wrapped_url);
        render_padding_opt(out, "padding", &self.padding);
        proof {
            broadcast use crate::model::utils::lemma_seq_add_assoc;

            reveal(MjAccordionAttributes::text);
            assert(out@ == old(out)@ + self.text());
        }
    }
}

impl MjAccordionElementAttributes {
    /// The rendered attribute text, in declared order.
    #[verifier::opaque]
    pub open spec fn text(self) -> Seq<char> {
        opt_attr_text("border"@, self.border)
            + opt_attr_text("background-color"@, self.background_color)
            + list_attr_text("css-class"@, self.css_class@.map_values(|s: String| s@))
            + list_attr_text("font-family"@, self.font_family@.map_values(|s: String| s@))
            + opt_attr_text("icon-align"@, self.icon_align)
            + opt_attr_text("icon-height"@, self.icon_height)
            + opt_attr_text("icon-position"@, self.icon_position)
            + opt_attr_text("icon-unwrapped-alt"@, self.icon_unwrapped_alt)
            + opt_attr_text("icon-unwrapped-url"@, self.icon_unwrapped_url)
            + opt_attr_text("icon-width"@, self.icon_width)
            + opt_attr_text("icon-wrapped-alt"@, self.icon_wrapped_alt)
            + opt_attr_text("icon-wrapped-url"@, self.icon_wrapped_url)
    }

    pub fn render(&self, out: &mut String)
        ensures
            final(out)@ == old(out)@ + self.text(),
    {
        render_generic_attribute(out, "border", &self.border);
        render_generic_attribute(out, "background-color", &self.background_color);
        render_css_class(out, &self.css_class);
        render_font_family(out, &self.font_family);
        render_generic_attribute(out, "icon-align", &self.icon_align);
        render_generic_attribute(out, "icon-height", &self.icon_height);
        render_generic_attribute(out, "icon-position", &self.icon_position);
        render_generic_attribute(out, "icon-unwrapped-alt", &self.icon_unwrapped_alt);
        render_generic_attribute(out, "icon-unwrapped-url", &self.icon_unwrapped_url);
        render_generic_attribute(out, "icon-width", &self.icon_width);
        render_generic_attribute(out, "icon-wrapped-alt", &self.icon_wrapped_alt);
        render_generic_attribute(out, "icon-wrapped-url", &self.icon_wrapped_url);
        proof {
            broadcast use crate::model::utils::lemma_seq_add_assoc;

            reveal(MjAccordionElementAttributes::text);
            assert(out@ == old(out)@ + self.text());
        }
    }
}

impl MjAccordionElementTitleAttributes {
    /// The rendered attribute text, in declared order.
    #[verifier::opaque]
    pub open spec fn text(self) -> Seq<char> {
        opt_attr_text("background-color"@, self.background_color)
            + opt_attr_text("color"@, self.color)
            + list_attr_text("css-class"@, self.css_class@.map_values(|s: String| s@))
            + list_attr_text("font-family"@, self.font_family@.map_values(|s: String| s@))
            + opt_attr_text("font-size"@, self.font_size)
            + opt_padding_text("padding"@, self.padding)
    }

    pub fn render(&self, out: &mut String)
        ensures
            final(out)@ == old(out)@ + self.text(),
    {
        render_generic_attribute(out, "background-color", &self.background_color);
        render_generic_attribute(out, "color", &self.color);
        render_css_class(out, &self.css_class);
        render_font_family(out, &self.font_family);
        render_generic_attribute(out, "font-size", &self.font_size);
        render_padding_opt(out, "padding", &self.padding);
        proof {
            broadcast use crate::model::utils::lemma_seq_add_assoc;

            reveal(MjAccordionElementTitleAttributes::text);
            assert(out@ == old(out)@ + self.text());
        }
    }
}

impl MjAccordionElementTextAttributes {
    /// The rendered attribute text, in declared order.
    #[verifier::opaque]
    pub open spec fn text(self) -> Seq<char> {
        opt_attr_text("background-color"@, self.background_color)
            + opt_attr_text("color"@, self.color)
            + list_attr_text("css-class"@, self.css_class@.map_values(|s: String| s@))
            + list_attr_text("font-family"@, self.font_family@.map_values(|s: String| s@))
            + opt_attr_text("font-size"@, self.font_size)
            + opt_attr_text("font-weight"@, self.font_weight)
            + opt_attr_text("letter-spacing"@, self.letter_spacing)
            + opt_attr_text("line-height"@, self.line_height)
            + opt_padding_text("padding"@, self.padding)
    }

    pub fn render(&self, out: &mut String)
        ensures
            final(out)@ == old(out)@ + self.text(),
    {
        render_generic_attribute(out, "background-color", &self.background_color);
        render_generic_attribute(out, "color", &self.color);
        render_css_class(out, &self.css_class);
        render_font_family(out, &self.font_family);
        render_generic_attribute(out, "font-size", &self.font_size);
        render_generic_attribute(out, "font-weight", &self.font_weight);
        render_generic_attribute(out, "letter-spacing", &self.letter_spacing);
        render_generic_attribute(out, "line-height", &self.line_height);
        render_padding_opt(out, "padding", &self.padding);
        proof {
            broadcast use crate::model::utils::lemma_seq_add_assoc;

            reveal(MjAccordionElementTextAttributes::text);
            assert(out@ == old(out)@ + self.text());
        }
    }
}

/// The rendered text of a run of child elements, in order.
pub open spec fn accordion_elements_text(s: Seq<MjAccordionElement>, depth: nat) -> Seq<char>
    decreases s,
{
    if s.len() == 0 {
        Seq::empty()
    } else {
        accordion_elements_text(s.drop_last(), depth) + s.last().text(depth)
    }
}

impl MjAccordion {
    /// The inner payload: the child elements, each at the given depth.
    #[verifier::opaque]
    pub open spec fn content_text(self, depth: nat) -> Seq<char> {
        accordion_elements_text(self.elements@, depth)
    }

    /// The whole rendered text of this node at the given depth.
    #[verifier::opaque]
    pub open spec fn text(self, depth: nat) -> Seq<char> {
        node_text(depth, "mj-accordion"@, self.attributes.text(), true, self.content_text(depth + 1))
    }

    /// How many nesting levels this node renders, itself included.
    pub open spec fn height(self) -> nat {
        4
    }

    pub fn name(&self) -> (r: &'static str)
        ensures
            r@ == "mj-accordion"@,
    {
        "mj-accordion"
    }

    pub fn has_content(&self) -> (r: bool)
        ensures
            r,
    {
        true
    }

    /// Writes the child elements only, not the enclosing tags.
    #[verifier::loop_isolation(false)]
    pub fn render_content(&self, out: &mut String, depth: usize)
        requires
            depth + 3 <= usize::MAX,
        ensures
            final(out)@ == old(out)@ + self.content_text(depth as nat),
    {
        let mut i: usize = 0;
        while i < self.elements.len()
            invariant
                i <= self.elements.len(),
                out@ == old(out)@ + accordion_elements_text(self.elements@.take(i as int), depth as nat),
            decreases self.elements.len() - i,
        {
            self.elements[i].render(out, depth);
            proof {
                broadcast use crate::model::utils::lemma_seq_add_assoc;

                assert(self.elements@.take(i + 1 as int).drop_last() =~= self.elements@.take(
                    i as int,
                ));
                assert(self.elements@.take(i + 1 as int).last() == self.elements@[i as int]);
                assert(out@ == old(out)@ + accordion_elements_text(
                    self.elements@.take(i + 1 as int),
                    depth as nat,
                ));
            }
            i = i + 1;
        }
        proof {
            reveal(MjAccordion::content_text);
            assert(self.elements@.take(self.elements.len() as int) =~= self.elements@);
        }
    }

    /// Writes this node and everything below it at the given depth.
    pub fn render(&self, out: &mut String, depth: usize)
        requires
            depth + self.height() <= usize::MAX,
        ensures
            final(out)@ == old(out)@ + self.text(depth as nat),
    {
        push_open_tag(out, depth, "mj-accordion");
        self.attributes.render(out);
        push_tag_end(out);
        self.render_content(out, depth + 1);
        push_close_tag(out, depth, "mj-accordion");
        proof {
            broadcast use crate::model::utils::lemma_seq_add_assoc;

            reveal(MjAccordion::text);
            assert(out@ == old(out)@ + self.text(depth as nat));
        }
    }
}

impl MjAccordionElement {
    /// The inner payload: the title sub-block then the text sub-block,
    /// both at the given depth.
    #[verifier::opaque]
    pub open spec fn content_text(self, depth: nat) -> Seq<char> {
        self.title.text(depth) + self.text.text(depth)
    }

    /// The whole rendered text of this node at the given depth.
    #[verifier::opaque]
    pub open spec fn text(self, depth: nat) -> Seq<char> {
        node_text(
            depth,
            "mj-accordion-element"@,
            self.attributes.text(),
            true,
            self.content_text(depth + 1),
        )
    }

    /// How many nesting levels this node renders, itself included.
    pub open spec fn height(self) -> nat {
        3
    }

    pub fn name(&self) -> (r: &'static str)
        ensures
            r@ == "mj-accordion-element"@,
    {
        "mj-accordion-element"
    }

    pub fn has_content(&self) -> (r: bool)
        ensures
            r,
    {
        true
    }

    /// Writes the title and text sub-blocks only, not the enclosing tags.
    pub fn render_content(&self, out: &mut String, depth: usize)
        requires
            depth + 2 <= usize::MAX,
        ensures
            final(out)@ == old(out)@ + self.content_text(depth as nat),
    {
        self.title.render(out, depth);
        self.text.render(out, depth);
        proof {
            broadcast use crate::model::utils::lemma_seq_add_assoc;

            reveal(MjAccordionElement::content_text);
            assert(out@ == old(out)@ + self.content_text(depth as nat));
        }
    }

    /// Writes this node and everything below it at the given depth.
    pub fn render(&self, out: &mut String, depth: usize)
        requires
            depth + self.height() <= usize::MAX,
        ensures
            final(out)@ == old(out)@ + self.text(depth as nat),
    {
        push_open_tag(out, depth, "mj-accordion-element");
        self.attributes.render(out);
        push_tag_end(out);
        self.render_content(out, depth + 1);
        push_close_tag(out, depth, "mj-accordion-element");
        proof {
            broadcast use crate::model::utils::lemma_seq_add_assoc;

            reveal(MjAccordionElement::text);
            assert(out@ == old(out)@ + self.text(depth as nat));
        }
    }
}

impl MjAccordionElementTitle {
    /// The inner payload: one line of literal text at the given depth.
    #[verifier::opaque]
    pub open spec fn content_text(self, depth: nat) -> Seq<char> {
        text_line(depth, self.content@)
    }

    /// The whole rendered text of this node at the given depth.
    #[verifier::opaque]
    pub open spec fn text(self, depth: nat) -> Seq<char> {
        node_text(depth, "mj-accordion-title"@, self.attributes.text(), true, self.content_text(depth + 1))
    }

    /// How many nesting levels this node renders, itself included.
    pub open spec fn height(self) -> nat {
        2
    }

    pub fn name(&self) -> (r: &'static str)
        ensures
            r@ == "mj-accordion-title"@,
    {
        "mj-accordion-title"
    }

    pub fn has_content(&self) -> (r: bool)
        ensures
            r,
    {
        true
    }

    /// Writes the inner payload only, not the enclosing tags.
    pub fn render_content(&self, out: &mut String, depth: usize)
        ensures
            final(out)@ == old(out)@ + self.content_text(depth as nat),
    {
        push_text_line(out, depth, self.content.as_str());
        proof {
            reveal(MjAccordionElementTitle::content_text);
        }
    }

    /// Writes this node and everything below it at the given depth.
    pub fn render(&self, out: &mut String, depth: usize)
        requires
            depth + self.height() <= usize::MAX,
        ensures
            final(out)@ == old(out)@ + self.text(depth as nat),
    {
        push_open_tag(out, depth, "mj-accordion-title");
        self.attributes.render(out);
        push_tag_end(out);
        self.render_content(out, depth + 1);
        push_close_tag(out, depth, "mj-accordion-title");
        proof {
            broadcast use crate::model::utils::lemma_seq_add_assoc;

            reveal(MjAccordionElementTitle::text);
            assert(out@ == old(out)@ + self.text(depth as nat));
        }
    }
}

impl MjAccordionElementText {
    /// The inner payload: one line of literal text at the given depth.
    #[verifier::opaque]
    pub open spec fn content_text(self, depth: nat) -> Seq<char> {
        text_line(depth, self.content@)
    }

    /// The whole rendered text of this node at the given depth.
    #[verifier::opaque]
    pub open spec fn text(self, depth: nat) -> Seq<char> {
        node_text(depth, "mj-accordion-text"@, self.attributes.text(), true, self.content_text(depth + 1))
    }

    /// How many nesting levels this node renders, itself included.
    pub open spec fn height(self) -> nat {
        2
    }

    pub fn name(&self) -> (r: &'static str)
        ensures
            r@ == "mj-accordion-text"@,
    {
        "mj-accordion-text"
    }

    pub fn has_content(&self) -> (r: bool)
        ensures
            r,
    {
        true
    }

    /// Writes the inner payload only, not the enclosing tags.
    pub fn render_content(&self, out: &mut String, depth: usize)
        ensures
            final(out)@ == old(out)@ + self.content_text(depth as nat),
    {
        push_text_line(out, depth, self.content.as_str());
        proof {
            reveal(MjAccordionElementText::content_text);
        }
    }

    /// Writes this node and everything below it at the given depth.
    pub fn render(&self, out: &mut String, depth: usize)
        requires
            depth + self.height() <= usize::MAX,
        ensures
            final(out)@ == old(out)@ + self.text(depth as nat),
    {
        push_open_tag(out, depth, "mj-accordion-text");
        self.attributes.render(out);
        push_tag_end(out);
        self.render_content(out, depth + 1);
        push_close_tag(out, depth, "mj-accordion-text");
        proof {
            broadcast use crate::model::utils::lemma_seq_add_assoc;

            reveal(MjAccordionElementText::text);
            assert(out@ == old(out)@ + self.text(depth as nat));
        }
    }
}


impl MjBodyComponent for MjAccordion {
    open spec fn as_base(self) -> BaseComponent {
        BaseComponent::Accordion(self)
    }

    fn to_base_component(self) -> (r: BaseComponent) {
        BaseComponent::Accordion(self)
    }
}

} // verus!
