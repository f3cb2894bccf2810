//! The `mj-divider` element: a void node drawing a horizontal rule.
use vstd::prelude::*;

use crate::model::utils::list_attr_text;
use crate::model::utils::opt_attr_text;
use crate::model::utils::opt_padding_text;
use crate::model::utils::render_css_class;
use crate::model::utils::render_generic_attribute;
use crate::model::utils::render_padding_opt;
use crate::model::utils::Alignment;
use crate::model::utils::BorderStyle;
use crate::model::utils::Color;
use crate::model::utils::CssClass;
use crate::model::utils::Padding;
use crate::model::utils::PxOrPercent;
use crate::model::utils::SizePx;
use crate::model::{
    BaseComponent,
    MjBodyComponent,
    node_text,
    push_open_tag,
    push_void_end,
};

verus! {

/// A horizontal divider, always self-closing.
pub struct MjDivider {
    pub attributes: MjDividerAttributes,
}

#[derive(Default)]
pub struct MjDividerAttributes {
    pub border_color: Option<Color>,
    pub border_style: Option<BorderStyle>,
    pub border_width: Option<SizePx>,
    pub container_background_color: Option<Color>,
    pub css_class: Vec<CssClass>,
    pub padding: Option<Padding>,
    pub width: Option<PxOrPercent>,
    pub align: Option<Alignment>,
}

impl MjDividerAttributes {
    /// The rendered attribute text, in declared order.
    #[verifier::opaque]
    pub open spec fn text(self) -> Seq<char> {
        opt_attr_text("border-color"@, self.border_color)
            + opt_attr_text("border-style"@, self.border_style)
            + opt_attr_text("border-width"@, self.border_width)
            + opt_attr_text("container-background-color"@, self.container_background_color)
            + list_attr_text("css-class"@, self.css_class@.map_values(|s: String| s@))
            + opt_padding_text("padding"@, self.padding)
            + opt_attr_text("width"@, self.width)
            + opt_attr_text("align"@, self.align)
    }

    pub fn render(&self, out: &mut String)
        ensures
            final(out)@ == old(out)@ + self.text(),
    {
        render_generic_attribute(out, "border-color", &self.border_color);
        render_generic_attribute(out, "border-style", &self.border_style);
        render_generic_attribute(out, "border-width", &self.border_width);
        render_generic_attribute(out, "container-background-color", &self.container_background_color);
        render_css_class(out, &self.css_class);
        render_padding_opt(out, "padding", &self.padding);
        render_generic_attribute(out, "width", &self.width);
        render_generic_attribute(out, "align", &self.align);
        proof {
            broadcast use crate::model::utils::lemma_seq_add_assoc;

            reveal(MjDividerAttributes::text);
            assert(out@ == old(out)@ + self.text());
        }
    }
}

impl MjDivider {
    /// The whole rendered text of this node at the given depth: a single
    /// self-closing tag line.
    #[verifier::opaque]
    pub open spec fn text(self, depth: nat) -> Seq<char> {
        node_text(depth, "mj-divider"@, self.attributes.text(), false, Seq::empty())
    }

    /// How many nesting levels this node renders, itself included.
    pub open spec fn height(self) -> nat {
        1
    }

    pub fn name(&self) -> (r: &'static str)
        ensures
            r@ == "mj-divider"@,
    {
        "mj-divider"
    }

    pub fn has_content(&self) -> (r: bool)
        ensures
            !r,
    {
        false
    }

    /// Writes this node at the given depth.
    pub fn render(&self, out: &mut String, depth: usize)
        requires
            depth + self.height() <= usize::MAX,
        ensures
            final(out)@ == old(out)@ + self.text(depth as nat),
    {
        push_open_tag(out, depth, "mj-divider");
        self.attributes.render(out);
        push_void_end(out);
        proof {
            broadcast use crate::model::utils::lemma_seq_add_assoc;

            reveal(MjDivider::text);
            assert(out@ == old(out)@ + self.text(depth as nat));
        }
    }
}


impl MjBodyComponent for MjDivider {
    open spec fn as_base(self) -> BaseComponent {
        BaseComponent::Divider(self)
    }

    fn to_base_component(self) -> (r: BaseComponent) {
        BaseComponent::Divider(self)
    }
}

} // verus!
