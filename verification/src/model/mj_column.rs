//! The `mj-column` element: a column of body-slot nodes, with a
//! composite padding sub-block rendered inline on the opening tag.
use vstd::prelude::*;

use crate::model::utils::list_attr_text;
use crate::model::utils::opt_attr_text;
use crate::model::utils::padding_text;
use crate::model::utils::render_css_class;
use crate::model::utils::render_generic_attribute;
use crate::model::utils::render_padding;
use crate::model::utils::BorderProperties;
use crate::model::utils::Color;
use crate::model::utils::CssClass;
use crate::model::utils::Padding;
use crate::model::utils::PxOrPercent;
use crate::model::utils::VerticalAlignment;
use crate::model::{BaseComponent, ColumnCompatible, MjBodyColumnComponent, base_children_text, max_height_base, node_text, push_close_tag, push_open_tag, push_tag_end, render_base_children};

verus! {

/// A vertical column of body-slot nodes.
pub struct MjColumn {
    pub content: Vec<BaseComponent>,
    pub attributes: MjColumnAttributes,
}

#[derive(Default)]
pub struct MjColumnAttributes {
    /// Carried in the model; the renderer never emits it.
    pub background_color: Option<Color>,
    pub inner_background_color: Option<Color>,
    pub border: Option<BorderProperties>,
    pub border_bottom: Option<BorderProperties>,
    pub border_left: Option<BorderProperties>,
    pub border_right: Option<BorderProperties>,
    pub border_top: Option<BorderProperties>,
    pub border_radius: Option<PxOrPercent>,
    pub width: Option<PxOrPercent>,
    pub vertical_align: Option<VerticalAlignment>,
    pub padding: Option<MjColumnPaddingAttributes>,
    pub css_class: Vec<CssClass>,
}

/// The composite padding sub-block of a column, rendered inline as extra
/// attributes on the same opening tag.
pub struct MjColumnPaddingAttributes {
    pub inner_border: Option<BorderProperties>,
    pub inner_border_bottom: Option<BorderProperties>,
    pub inner_border_left: Option<BorderProperties>,
    pub inner_border_right: Option<BorderProperties>,
    pub inner_border_top: Option<BorderProperties>,
    pub inner_border_radius: Option<PxOrPercent>,
    pub padding: Padding,
}

impl MjColumnPaddingAttributes {
    /// The rendered attribute text, in declared order.
    #[verifier::opaque]
    pub open spec fn text(self) -> Seq<char> {
        opt_attr_text("inner-border"@, self.inner_border)
            + opt_attr_text("inner-border-bottom"@, self.inner_border_bottom)
            + opt_attr_text("inner-border-left"@, self.inner_border_left)
            + opt_attr_text("inner-border-right"@, self.inner_border_right)
            + opt_attr_text("inner-border-top"@, self.inner_border_top)
            + opt_attr_text("inner-border-radius"@, self.inner_border_radius)
            + padding_text("padding"@, self.padding)
    }

    pub fn render(&self, out: &mut String)
        ensures
            final(out)@ == old(out)@ + self.text(),
    {
        render_generic_attribute(out, "inner-border", &self.inner_border);
        render_generic_attribute(out, "inner-border-bottom", &self.inner_border_bottom);
        render_generic_attribute(out, "inner-border-left", &self.inner_border_left);
        render_generic_attribute(out, "inner-border-right", &self.inner_border_right);
        render_generic_attribute(out, "inner-border-top", &self.inner_border_top);
        render_generic_attribute(out, "inner-border-radius", &self.inner_border_radius);
        render_padding(out, "padding", &self.padding);
        proof {
            broadcast use crate::model::utils::lemma_seq_add_assoc;

            reveal(MjColumnPaddingAttributes::text);
            assert(out@ == old(out)@ + self.text());
        }
    }
}

impl MjColumnAttributes {
    /// The rendered attribute text, in declared order.
    #[verifier::opaque]
    pub open spec fn text(self) -> Seq<char> {
        opt_attr_text("inner-background-color"@, self.inner_background_color)
            + opt_attr_text("border"@, self.border)
            + opt_attr_text("border-bottom"@, self.border_bottom)
            + opt_attr_text("border-left"@, self.border_left)
            + opt_attr_text("border-right"@, self.border_right)
            + opt_attr_text("border-top"@, self.border_top)
            + opt_attr_text("border-radius"@, self.border_radius)
            + opt_attr_text("width"@, self.width)
            + opt_attr_text("vertical-align"@, self.vertical_align)
            + (match self.padding {
                Option::Some(p) => p.text(),
                Option::None => Seq::empty(),
            })
            + list_attr_text("css-class"@, self.css_class@.map_values(|s: String| s@))
    }

    pub fn render(&self, out: &mut String)
        ensures
            final(out)@ == old(out)@ + self.text(),
    {
        render_generic_attribute(out, "inner-background-color", &self.inner_background_color);
        render_generic_attribute(out, "border", &self.border);
        render_generic_attribute(out, "border-bottom", &self.border_bottom);
        render_generic_attribute(out, "border-left", &self.border_left);
        render_generic_attribute(out, "border-right", &self.border_right);
        render_generic_attribute(out, "border-top", &self.border_top);
        render_generic_attribute(out, "border-radius", &self.border_radius);
        render_generic_attribute(out, "width", &self.width);
        render_generic_attribute(out, "vertical-align", &self.vertical_align);
        match &self.padding {
            Option::Some(p) => p.render(out),
            Option::None => {}
        }
        render_css_class(out, &self.css_class);
        proof {
            broadcast use crate::model::utils::lemma_seq_add_assoc;

            reveal(MjColumnAttributes::text);
            assert(out@ == old(out)@ + self.text());
        }
    }
}

impl MjColumn {
    /// The inner payload: the child nodes, each at the given depth.
    pub open spec fn content_text(self, depth: nat) -> Seq<char>
        decreases self, 0int,
    {
        base_children_text(self.content@, depth)
    }

    /// The whole rendered text of this node at the given depth.
    pub open spec fn text(self, depth: nat) -> Seq<char>
        decreases self, 1int,
    {
        node_text(depth, "mj-column"@, self.attributes.text(), true, self.content_text(depth + 1))
    }

    /// How many nesting levels this node renders, itself included.
    pub open spec fn height(self) -> nat
        decreases self, 1int,
    {
        1 + max_height_base(self.content@)
    }

    pub fn name(&self) -> (r: &'static str)
        ensures
            r@ == "mj-column"@,
    {
        "mj-column"
    }

    pub fn has_content(&self) -> (r: bool)
        ensures
            r,
    {
        true
    }

    /// Writes the child nodes only, not the enclosing tags.
    pub fn render_content(&self, out: &mut String, depth: usize)
        requires
            depth + max_height_base(self.content@) <= usize::MAX,
        ensures
            final(out)@ == old(out)@ + self.content_text(depth as nat),
        decreases *self, 0int,
    {
        render_base_children(out, &self.content, depth);
    }

    /// Writes this node and everything below it at the given depth.
    pub fn render(&self, out: &mut String, depth: usize)
        requires
            depth + self.height() <= usize::MAX,
        ensures
            final(out)@ == old(out)@ + self.text(depth as nat),
        decreases *self, 1int,
    {
        push_open_tag(out, depth, "mj-column");
        self.attributes.render(out);
        push_tag_end(out);
        self.render_content(out, depth + 1);
        push_close_tag(out, depth, "mj-column");
        proof {
            broadcast use crate::model::utils::lemma_seq_add_assoc;

            assert(out@ == old(out)@ + self.text(depth as nat));
        }
    }
}

impl MjBodyColumnComponent for MjColumn {
    open spec fn as_column(self) -> ColumnCompatible {
        ColumnCompatible::Column(self)
    }

    fn to_column(self) -> (r: ColumnCompatible) {
        ColumnCompatible::Column(self)
    }
}

} // verus!
