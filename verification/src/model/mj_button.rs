//! The `mj-button` element: a call-to-action with a literal HTML
//! label.
use vstd::prelude::*;

use crate::model::utils::list_attr_text;
use crate::model::utils::opt_attr_text;
use crate::model::utils::opt_padding_text;
use crate::model::utils::render_css_class;
use crate::model::utils::render_font_family;
use crate::model::utils::render_generic_attribute;
use crate::model::utils::render_padding_opt;
use crate::model::utils::Alignment;
use crate::model::utils::BorderProperties;
use crate::model::utils::Color;
use crate::model::utils::CssClass;
use crate::model::utils::FontStyle;
use crate::model::utils::Html;
use crate::model::utils::Padding;
use crate::model::utils::PxOrEm;
use crate::model::utils::SizePx;
use crate::model::utils::TextDecoration;
use crate::model::utils::TextTransform;
use crate::model::utils::Url;
use crate::model::utils::VerticalAlignment;
use crate::model::{
    BaseComponent,
    MjBodyComponent,
    node_text,
    push_close_tag,
    push_open_tag,
    push_tag_end,
    push_text_line,
    text_line,
};

verus! {

/// A button with a literal HTML label.
pub struct MjButton {
    pub content: Html,
    pub attributes: MjButtonAttributes,
}

#[derive(Default)]
pub struct MjButtonAttributes {
    pub align: Option<Alignment>,
    pub background_color: Option<Color>,
    pub border: Option<BorderProperties>,
    pub border_bottom: Option<BorderProperties>,
    pub border_left: Option<BorderProperties>,
    pub border_radius: Option<SizePx>,
    pub border_right: Option<BorderProperties>,
    pub border_top: Option<BorderProperties>,
    pub color: Option<Color>,
    pub container_background_color: Option<Color>,
    pub css_class: Vec<CssClass>,
    pub font_family: Vec<String>,
    pub font_size: Option<SizePx>,
    pub font_style: Option<FontStyle>,
    pub font_weight: Option<u32>,
    pub height: Option<SizePx>,
    pub href: Option<Url>,
    pub inner_padding: Option<Padding>,
    pub letter_spacing: Option<PxOrEm>,
    pub line_height: Option<String>,
    pub padding: Option<Padding>,
    pub rel: Option<String>,
    pub target: Option<String>,
    pub text_align: Option<String>,
    pub text_decoration: Option<TextDecoration>,
    pub text_transform: Option<TextTransform>,
    pub title: Option<String>,
    pub vertical_align: Option<VerticalAlignment>,
    pub width: Option<SizePx>,
}

impl MjButtonAttributes {
    /// The rendered attribute text, in declared order.
    #[verifier::opaque]
    pub open spec fn text(self) -> Seq<char> {
        opt_attr_text("align"@, self.align)
            + opt_attr_text("background-color"@, self.background_color)
            + opt_attr_text("border"@, self.border)
            + opt_attr_text("border-bottom"@, self.border_bottom)
            + opt_attr_text("border-left"@, self.border_left)
            + opt_attr_text("border-right"@, self.border_right)
            + opt_attr_text("border-top"@, self.border_top)
            + opt_attr_text("border-radius"@, self.border_radius)
            + opt_attr_text("color"@, self.color)
            + opt_attr_text("container-background-color"@, self.container_background_color)
            + list_attr_text("css-class"@, self.css_class@.map_values(|s: String| s@))
            + list_attr_text("font-family"@, self.font_family@.map_values(|s: String| s@))
            + opt_attr_text("font-size"@, self.font_size)
            + opt_attr_text("font-style"@, self.font_style)
            + opt_attr_text("font-weight"@, self.font_weight)
            + opt_attr_text("height"@, self.height)
            + opt_attr_text("href"@, self.href)
            + opt_padding_text("inner-padding"@, self.inner_padding)
            + opt_attr_text("letter-spacing"@, self.letter_spacing)
            + opt_attr_text("line-height"@, self.line_height)
            + opt_padding_text("padding"@, self.padding)
            + opt_attr_text("rel"@, self.rel)
            + opt_attr_text("target"@, self.target)
            + opt_attr_text("text-align"@, self.text_align)
            + opt_attr_text("text-decoration"@, self.text_decoration)
            + opt_attr_text("text-transform"@, self.text_transform)
            + opt_attr_text("title"@, self.title)
            + opt_attr_text("vertical-align"@, self.vertical_align)
            + opt_attr_text("width"@, self.width)
    }

    pub fn render(&self, out: &mut String)
        ensures
            final(out)@ == old(out)@ + self.text(),
    {
        render_generic_attribute(out, "align", &self.align);
        render_generic_attribute(out, "background-color", &self.background_color);
        render_generic_attribute(out, "border", &self.border);
        render_generic_attribute(out, "border-bottom", &self.border_bottom);
        render_generic_attribute(out, "border-left", &self.border_left);
        render_generic_attribute(out, "border-right", &self.border_right);
        render_generic_attribute(out, "border-top", &self.border_top);
        render_generic_attribute(out, "border-radius", &self.border_radius);
        render_generic_attribute(out, "color", &self.color);
        render_generic_attribute(out, "container-background-color", &self.container_background_color);
        render_css_class(out, &self.css_class);
        render_font_family(out, &self.font_family);
        render_generic_attribute(out, "font-size", &self.font_size);
        render_generic_attribute(out, "font-style", &self.font_style);
        render_generic_attribute(out, "font-weight", &self.font_weight);
        render_generic_attribute(out, "height", &self.height);
        render_generic_attribute(out, "href", &self.href);
        render_padding_opt(out, "inner-padding", &self.inner_padding);
        render_generic_attribute(out, "letter-spacing", &self.letter_spacing);
        render_generic_attribute(out, "line-height", &self.line_height);
        render_padding_opt(out, "padding", &self.padding);
        render_generic_attribute(out, "rel", &self.rel);
        render_generic_attribute(out, "target", &self.target);
        render_generic_attribute(out, "text-align", &self.text_align);
        render_generic_attribute(out, "text-decoration", &self.text_decoration);
        render_generic_attribute(out, "text-transform", &self.text_transform);
        render_generic_attribute(out, "title", &self.title);
        render_generic_attribute(out, "vertical-align", &self.vertical_align);
        render_generic_attribute(out, "width", &self.width);
        proof {
            broadcast use crate::model::utils::lemma_seq_add_assoc;

            reveal(MjButtonAttributes::text);
            assert(out@ == old(out)@ + self.text());
        }
    }
}

impl MjButton {
    /// The inner payload: one line of literal text at the given depth.
    #[verifier::opaque]
    pub open spec fn content_text(self, depth: nat) -> Seq<char> {
        text_line(depth, self.content@)
    }

    /// The whole rendered text of this node at the given depth.
    #[verifier::opaque]
    pub open spec fn text(self, depth: nat) -> Seq<char> {
        node_text(depth, "mj-button"@, self.attributes.text(), true, self.content_text(depth + 1))
    }

    /// How many nesting levels this node renders, itself included.
    pub open spec fn height(self) -> nat {
        2
    }

    pub fn name(&self) -> (r: &'static str)
        ensures
            r@ == "mj-button"@,
    {
        "mj-button"
    }

    pub fn has_content(&self) -> (r: bool)
        ensures
            r,
    {
        true
    }

    /// Writes the inner payload only, not the enclosing tags.
    pub fn render_content(&self, out: &mut String, depth: usize)
        ensures
            final(out)@ == old(out)@ + self.content_text(depth as nat),
    {
        push_text_line(out, depth, self.content.as_str());
        proof {
            reveal(MjButton::content_text);
        }
    }

    /// Writes this node and everything below it at the given depth.
    pub fn render(&self, out: &mut String, depth: usize)
        requires
            depth + self.height() <= usize::MAX,
        ensures
            final(out)@ == old(out)@ + self.text(depth as nat),
    {
        push_open_tag(out, depth, "mj-button");
        self.attributes.render(out);
        push_tag_end(out);
        self.render_content(out, depth + 1);
        push_close_tag(out, depth, "mj-button");
        proof {
            broadcast use crate::model::utils::lemma_seq_add_assoc;

            reveal(MjButton::text);
            assert(out@ == old(out)@ + self.text(depth as nat));
        }
    }
}


impl MjBodyComponent for MjButton {
    open spec fn as_base(self) -> BaseComponent {
        BaseComponent::Button(self)
    }

    fn to_base_component(self) -> (r: BaseComponent) {
        BaseComponent::Button(self)
    }
}

} // verus!
