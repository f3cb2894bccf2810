//! The `mj-text` element: a literal HTML payload with text-styling
//! attributes.
use vstd::prelude::*;

use crate::model::utils::list_attr_text;
use crate::model::utils::opt_attr_text;
use crate::model::utils::opt_padding_text;
use crate::model::utils::render_css_class;
use crate::model::utils::render_font_family;
use crate::model::utils::render_generic_attribute;
use crate::model::utils::render_padding_opt;
use crate::model::utils::Color;
use crate::model::utils::CssClass;
use crate::model::utils::FontStyle;
use crate::model::utils::Html;
use crate::model::utils::Padding;
use crate::model::utils::PxOrEm;
use crate::model::utils::SizePx;
use crate::model::utils::TextAlignment;
use crate::model::utils::TextDecoration;
use crate::model::utils::TextTransform;
use crate::model::{
    BaseComponent,
    MjBodyComponent,
    node_text,
    push_close_tag,
    push_open_tag,
    push_tag_end,
    push_text_line,
    text_line,
};

verus! {

/// A text block carrying one literal HTML payload.
pub struct MjText {
    pub content: Html,
    pub attributes: MjTextAttributes,
}

#[derive(Default)]
pub struct MjTextAttributes {
    pub color: Option<Color>,
    pub font_family: Vec<String>,
    pub font_size: Option<SizePx>,
    pub font_style: Option<FontStyle>,
    pub font_weight: Option<u32>,
    pub line_height: Option<SizePx>,
    pub letter_spacing: Option<PxOrEm>,
    pub height: Option<SizePx>,
    pub text_decoration: Option<TextDecoration>,
    pub text_transform: Option<TextTransform>,
    pub align: Option<TextAlignment>,
    pub container_background_color: Option<Color>,
    pub padding: Option<Padding>,
    pub css_class: Vec<CssClass>,
}

impl MjTextAttributes {
    /// The rendered attribute text, in declared order.
    #[verifier::opaque]
    pub open spec fn text(self) -> Seq<char> {
        opt_attr_text("color"@, self.color)
            + list_attr_text("font-family"@, self.font_family@.map_values(|s: String| s@))
            + opt_attr_text("font-size"@, self.font_size)
            + opt_attr_text("font-style"@, self.font_style)
            + opt_attr_text("font-weight"@, self.font_weight)
            + opt_attr_text("line-height"@, self.line_height)
            + opt_attr_text("letter-spacing"@, self.letter_spacing)
            + opt_attr_text("height"@, self.height)
            + opt_attr_text("text-decoration"@, self.text_decoration)
            + opt_attr_text("text-transform"@, self.text_transform)
            + opt_attr_text("align"@, self.align)
            + opt_attr_text("container-background-color"@, self.container_background_color)
            + opt_padding_text("padding"@, self.padding)
            + list_attr_text("css-class"@, self.css_class@.map_values(|s: String| s@))
    }

    pub fn render(&self, out: &mut String)
        ensures
            final(out)@ == old(out)@ + self.text(),
    {
        render_generic_attribute(out, "color", &self.color);
        render_font_family(out, &self.font_family);
        render_generic_attribute(out, "font-size", &self.font_size);
        render_generic_attribute(out, "font-style", &self.font_style);
        render_generic_attribute(out, "font-weight", &self.font_weight);
        render_generic_attribute(out, "line-height", &self.line_height);
        render_generic_attribute(out, "letter-spacing", &self.letter_spacing);
        render_generic_attribute(out, "height", &self.height);
        render_generic_attribute(out, "text-decoration", &self.text_decoration);
        render_generic_attribute(out, "text-transform", &self.text_transform);
        render_generic_attribute(out, "align", &self.align);
        render_generic_attribute(out, "container-background-color", &self.container_background_color);
        render_padding_opt(out, "padding", &self.padding);
        render_css_class(out, &self.css_class);
        proof {
            broadcast use crate::model::utils::lemma_seq_add_assoc;

            reveal(MjTextAttributes::text);
            assert(out@ == old(out)@ + self.text());
        }
    }
}

impl MjText {
    /// The inner payload: one line of literal text at the given depth.
    #[verifier::opaque]
    pub open spec fn content_text(self, depth: nat) -> Seq<char> {
        text_line(depth, self.content@)
    }

    /// The whole rendered text of this node at the given depth.
    #[verifier::opaque]
    pub open spec fn text(self, depth: nat) -> Seq<char> {
        node_text(depth, "mj-text"@, self.attributes.text(), true, self.content_text(depth + 1))
    }

    /// How many nesting levels this node renders, itself included.
    pub open spec fn height(self) -> nat {
        2
    }

    pub fn name(&self) -> (r: &'static str)
        ensures
            r@ == "mj-text"@,
    {
        "mj-text"
    }

    pub fn has_content(&self) -> (r: bool)
        ensures
            r,
    {
        true
    }

    /// Writes the inner payload only, not the enclosing tags.
    pub fn render_content(&self, out: &mut String, depth: usize)
        ensures
            final(out)@ == old(out)@ + self.content_text(depth as nat),
    {
        push_text_line(out, depth, self.content.as_str());
        proof {
            reveal(MjText::content_text);
        }
    }

    /// Writes this node and everything below it at the given depth.
    pub fn render(&self, out: &mut String, depth: usize)
        requires
            depth + self.height() <= usize::MAX,
        ensures
            final(out)@ == old(out)@ + self.text(depth as nat),
    {
        push_open_tag(out, depth, "mj-text");
        self.attributes.render(out);
        push_tag_end(out);
        self.render_content(out, depth + 1);
        push_close_tag(out, depth, "mj-text");
        proof {
            broadcast use crate::model::utils::lemma_seq_add_assoc;

            reveal(MjText::text);
            assert(out@ == old(out)@ + self.text(depth as nat));
        }
    }
}


impl MjBodyComponent for MjText {
    open spec fn as_base(self) -> BaseComponent {
        BaseComponent::Text(self)
    }

    fn to_base_component(self) -> (r: BaseComponent) {
        BaseComponent::Text(self)
    }
}

} // verus!
