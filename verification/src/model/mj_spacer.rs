//! The `mj-spacer` element: a void node adding vertical space.
use vstd::prelude::*;

use crate::model::utils::list_attr_text;
use crate::model::utils::opt_attr_text;
use crate::model::utils::opt_padding_text;
use crate::model::utils::render_css_class;
use crate::model::utils::render_generic_attribute;
use crate::model::utils::render_padding_opt;
use crate::model::utils::Color;
use crate::model::utils::CssClass;
use crate::model::utils::Padding;
use crate::model::utils::SizePx;
use crate::model::{
    BaseComponent,
    MjBodyComponent,
    node_text,
    push_open_tag,
    push_void_end,
};

verus! {

/// Vertical spacing, always self-closing.
pub struct MjSpacer {
    pub attributes: MjSpacerAttributes,
}

#[derive(Default)]
pub struct MjSpacerAttributes {
    pub container_background_color: Option<Color>,
    pub css_class: Vec<CssClass>,
    pub padding: Option<Padding>,
    pub height: Option<SizePx>,
}

impl MjSpacerAttributes {
    /// The rendered attribute text, in declared order.
    #[verifier::opaque]
    pub open spec fn text(self) -> Seq<char> {
        opt_attr_text("container-background-color"@, self.container_background_color)
            + list_attr_text("css-class"@, self.css_class@.map_values(|s: String| s@))
            + opt_padding_text("padding"@, self.padding)
            + opt_attr_text("height"@, self.height)
    }

    pub fn render(&self, out: &mut String)
        ensures
            final(out)@ == old(out)@ + self.text(),
    {
        render_generic_attribute(out, "container-background-color", &self.container_background_color);
        render_css_class(out, &self.css_class);
        render_padding_opt(out, "padding", &self.padding);
        render_generic_attribute(out, "height", &self.height);
        proof {
            broadcast use crate::model::utils::lemma_seq_add_assoc;

            reveal(MjSpacerAttributes::text);
            assert(out@ == old(out)@ + self.text());
        }
    }
}

impl MjSpacer {
    /// The whole rendered text of this node at the given depth: a single
    /// self-closing tag line.
    #[verifier::opaque]
    pub open spec fn text(self, depth: nat) -> Seq<char> {
        node_text(depth, "mj-spacer"@, self.attributes.text(), false, Seq::empty())
    }

    /// How many nesting levels this node renders, itself included.
    pub open spec fn height(self) -> nat {
        1
    }

    pub fn name(&self) -> (r: &'static str)
        ensures
            r@ == "mj-spacer"@,
    {
        "mj-spacer"
    }

    pub fn has_content(&self) -> (r: bool)
        ensures
            !r,
    {
        false
    }

    /// Writes this node at the given depth.
    pub fn render(&self, out: &mut String, depth: usize)
        requires
            depth + self.height() <= usize::MAX,
        ensures
            final(out)@ == old(out)@ + self.text(depth as nat),
    {
        push_open_tag(out, depth, "mj-spacer");
        self.attributes.render(out);
        push_void_end(out);
        proof {
            broadcast use crate::model::utils::lemma_seq_add_assoc;

            reveal(MjSpacer::text);
            assert(out@ == old(out)@ + self.text(depth as nat));
        }
    }
}


impl MjBodyComponent for MjSpacer {
    open spec fn as_base(self) -> BaseComponent {
        BaseComponent::Spacer(self)
    }

    fn to_base_component(self) -> (r: BaseComponent) {
        BaseComponent::Spacer(self)
    }
}

} // verus!
