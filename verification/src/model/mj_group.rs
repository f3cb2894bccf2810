//! The `mj-group` element: column-slot nodes laid out side by side.
use vstd::prelude::*;

use crate::model::utils::list_attr_text;
use crate::model::utils::opt_attr_text;
use crate::model::utils::render_css_class;
use crate::model::utils::render_generic_attribute;
use crate::model::utils::Color;
use crate::model::utils::CssClass;
use crate::model::utils::Direction;
use crate::model::utils::PxOrPercent;
use crate::model::utils::VerticalAlignment;
use crate::model::{ColumnCompatible, MjBodyColumnComponent, column_children_text, max_height_column, node_text, push_close_tag, push_open_tag, push_tag_end, render_column_children};

verus! {

/// A group of columns laid out side by side.
pub struct MjGroup {
    pub columns: Vec<ColumnCompatible>,
    pub attributes: MjGroupAttributes,
}

#[derive(Default)]
pub struct MjGroupAttributes {
    pub width: Option<PxOrPercent>,
    pub vertical_align: Option<VerticalAlignment>,
    pub background_color: Option<Color>,
    pub direction: Option<Direction>,
    pub css_class: Vec<CssClass>,
}

impl MjGroupAttributes {
    /// The rendered attribute text, in declared order.
    #[verifier::opaque]
    pub open spec fn text(self) -> Seq<char> {
        opt_attr_text("width"@, self.width)
            + opt_attr_text("vertical-align"@, self.vertical_align)
            + opt_attr_text("background-color"@, self.background_color)
            + opt_attr_text("direction"@, self.direction)
            + list_attr_text("css-class"@, self.css_class@.map_values(|s: String| s@))
    }

    pub fn render(&self, out: &mut String)
        ensures
            final(out)@ == old(out)@ + self.text(),
    {
        render_generic_attribute(out, "width", &self.width);
        render_generic_attribute(out, "vertical-align", &self.vertical_align);
        render_generic_attribute(out, "background-color", &self.background_color);
        render_generic_attribute(out, "direction", &self.direction);
        render_css_class(out, &self.css_class);
        proof {
            broadcast use crate::model::utils::lemma_seq_add_assoc;

            reveal(MjGroupAttributes::text);
            assert(out@ == old(out)@ + self.text());
        }
    }
}

impl MjGroup {
    /// The inner payload: the child nodes, each at the given depth.
    pub open spec fn content_text(self, depth: nat) -> Seq<char>
        decreases self, 0int,
    {
        column_children_text(self.columns@, depth)
    }

    /// The whole rendered text of this node at the given depth.
    pub open spec fn text(self, depth: nat) -> Seq<char>
        decreases self, 1int,
    {
        node_text(depth, "mj-group"@, self.attributes.text(), true, self.content_text(depth + 1))
    }

    /// How many nesting levels this node renders, itself included.
    pub open spec fn height(self) -> nat
        decreases self, 1int,
    {
        1 + max_height_column(self.columns@)
    }

    pub fn name(&self) -> (r: &'static str)
        ensures
            r@ == "mj-group"@,
    {
        "mj-group"
    }

    pub fn has_content(&self) -> (r: bool)
        ensures
            r,
    {
        true
    }

    /// Writes the child nodes only, not the enclosing tags.
    pub fn render_content(&self, out: &mut String, depth: usize)
        requires
            depth + max_height_column(self.columns@) <= usize::MAX,
        ensures
            final(out)@ == old(out)@ + self.content_text(depth as nat),
        decreases *self, 0int,
    {
        render_column_children(out, &self.columns, depth);
    }

    /// Writes this node and everything below it at the given depth.
    pub fn render(&self, out: &mut String, depth: usize)
        requires
            depth + self.height() <= usize::MAX,
        ensures
            final(out)@ == old(out)@ + self.text(depth as nat),
        decreases *self, 1int,
    {
        push_open_tag(out, depth, "mj-group");
        self.attributes.render(out);
        push_tag_end(out);
        self.render_content(out, depth + 1);
        push_close_tag(out, depth, "mj-group");
        proof {
            broadcast use crate::model::utils::lemma_seq_add_assoc;

            assert(out@ == old(out)@ + self.text(depth as nat));
        }
    }
}

impl MjBodyColumnComponent for MjGroup {
    open spec fn as_column(self) -> ColumnCompatible {
        ColumnCompatible::Group(self)
    }

    fn to_column(self) -> (r: ColumnCompatible) {
        ColumnCompatible::Group(self)
    }
}

} // verus!
