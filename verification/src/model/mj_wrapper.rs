//! The `mj-wrapper` element: wraps further section-slot nodes.
use vstd::prelude::*;

use crate::model::utils::flag_text;
use crate::model::utils::list_attr_text;
use crate::model::utils::opt_attr_text;
use crate::model::utils::opt_padding_text;
use crate::model::utils::render_css_class;
use crate::model::utils::render_flag_attribute;
use crate::model::utils::render_generic_attribute;
use crate::model::utils::render_padding_opt;
use crate::model::utils::BorderProperties;
use crate::model::utils::Color;
use crate::model::utils::CssClass;
use crate::model::utils::Padding;
use crate::model::utils::SizePx;
use crate::model::utils::TextAlignment;
use crate::model::utils::Url;
use crate::model::{BaseComponent, MjBodyComponent, MjBodySectionComponent, SectionCompatible, max_height_section, node_text, push_close_tag, push_open_tag, push_tag_end, render_section_children, section_children_text};

verus! {

/// A wrapper around further section-slot nodes.
pub struct MjWrapper {
    pub attributes: MjWrapperAttributes,
    pub content: Vec<SectionCompatible>,
}

#[derive(Default)]
pub struct MjWrapperAttributes {
    pub background_color: Option<Color>,
    pub background_position_x: Option<String>,
    pub background_position_y: Option<String>,
    pub background_repeat: Option<String>,
    pub background_size: Option<String>,
    pub background_url: Option<Url>,
    pub border: Option<BorderProperties>,
    pub border_bottom: Option<BorderProperties>,
    pub border_left: Option<BorderProperties>,
    pub border_radius: Option<SizePx>,
    pub border_right: Option<BorderProperties>,
    pub border_top: Option<BorderProperties>,
    pub css_class: Vec<CssClass>,
    pub full_width: bool,
    pub padding: Option<Padding>,
    pub text_align: Option<TextAlignment>,
}

impl MjWrapperAttributes {
    /// The rendered attribute text, in declared order.
    #[verifier::opaque]
    pub open spec fn text(self) -> Seq<char> {
        opt_attr_text("background-color"@, self.background_color)
            + opt_attr_text("background-position-x"@, self.background_position_x)
            + opt_attr_text("background-position-y"@, self.background_position_y)
            + opt_attr_text("background-repeat"@, self.background_repeat)
            + opt_attr_text("background-size"@, self.background_size)
            + opt_attr_text("background-url"@, self.background_url)
            + opt_attr_text("border"@, self.border)
            + opt_attr_text("border-bottom"@, self.border_bottom)
            + opt_attr_text("border-left"@, self.border_left)
            + opt_attr_text("border-right"@, self.border_right)
            + opt_attr_text("border-top"@, self.border_top)
            + opt_attr_text("border-radius"@, self.border_radius)
            + list_attr_text("css-class"@, self.css_class@.map_values(|s: String| s@))
            + flag_text("full-width"@, self.full_width)
            + opt_padding_text("padding"@, self.padding)
            + opt_attr_text("text-align"@, self.text_align)
    }

    pub fn render(&self, out: &mut String)
        ensures
            final(out)@ == old(out)@ + self.text(),
    {
        render_generic_attribute(out, "background-color", &self.background_color);
        render_generic_attribute(out, "background-position-x", &self.background_position_x);
        render_generic_attribute(out, "background-position-y", &self.background_position_y);
        render_generic_attribute(out, "background-repeat", &self.background_repeat);
        render_generic_attribute(out, "background-size", &self.background_size);
        render_generic_attribute(out, "background-url", &self.background_url);
        render_generic_attribute(out, "border", &self.border);
        render_generic_attribute(out, "border-bottom", &self.border_bottom);
        render_generic_attribute(out, "border-left", &self.border_left);
        render_generic_attribute(out, "border-right", &self.border_right);
        render_generic_attribute(out, "border-top", &self.border_top);
        render_generic_attribute(out, "border-radius", &self.border_radius);
        render_css_class(out, &self.css_class);
        render_flag_attribute(out, "full-width", self.full_width);
        render_padding_opt(out, "padding", &self.padding);
        render_generic_attribute(out, "text-align", &self.text_align);
        proof {
            broadcast use crate::model::utils::lemma_seq_add_assoc;

            reveal(MjWrapperAttributes::text);
            assert(out@ == old(out)@ + self.text());
        }
    }
}

impl MjWrapper {
    /// The inner payload: the child nodes, each at the given depth.
    pub open spec fn content_text(self, depth: nat) -> Seq<char>
        decreases self, 0int,
    {
        section_children_text(self.content@, depth)
    }

    /// The whole rendered text of this node at the given depth.
    pub open spec fn text(self, depth: nat) -> Seq<char>
        decreases self, 1int,
    {
        node_text(depth, "mj-wrapper"@, self.attributes.text(), true, self.content_text(depth + 1))
    }

    /// How many nesting levels this node renders, itself included.
    pub open spec fn height(self) -> nat
        decreases self, 1int,
    {
        1 + max_height_section(self.content@)
    }

    pub fn name(&self) -> (r: &'static str)
        ensures
            r@ == "mj-wrapper"@,
    {
        "mj-wrapper"
    }

    pub fn has_content(&self) -> (r: bool)
        ensures
            r,
    {
        true
    }

    /// Writes the child nodes only, not the enclosing tags.
    pub fn render_content(&self, out: &mut String, depth: usize)
        requires
            depth + max_height_section(self.content@) <= usize::MAX,
        ensures
            final(out)@ == old(out)@ + self.content_text(depth as nat),
        decreases *self, 0int,
    {
        render_section_children(out, &self.content, depth);
    }

    /// Writes this node and everything below it at the given depth.
    pub fn render(&self, out: &mut String, depth: usize)
        requires
            depth + self.height() <= usize::MAX,
        ensures
            final(out)@ == old(out)@ + self.text(depth as nat),
        decreases *self, 1int,
    {
        push_open_tag(out, depth, "mj-wrapper");
        self.attributes.render(out);
        push_tag_end(out);
        self.render_content(out, depth + 1);
        push_close_tag(out, depth, "mj-wrapper");
        proof {
            broadcast use crate::model::utils::lemma_seq_add_assoc;

            assert(out@ == old(out)@ + self.text(depth as nat));
        }
    }
}

impl MjBodyComponent for MjWrapper {
    open spec fn as_base(self) -> BaseComponent {
        BaseComponent::Wrapper(self)
    }

    fn to_base_component(self) -> (r: BaseComponent) {
        BaseComponent::Wrapper(self)
    }
}

impl MjBodySectionComponent for MjWrapper {
    open spec fn as_section(self) -> SectionCompatible {
        SectionCompatible::Wrapper(self)
    }

    fn to_section(self) -> (r: SectionCompatible) {
        SectionCompatible::Wrapper(self)
    }
}

} // verus!
