//! The `mj-body` element: the one mandatory body of a document.
use vstd::prelude::*;

use crate::model::utils::AttributeValue;
use crate::model::utils::attr_text;
use crate::model::utils::list_attr_text;
use crate::model::utils::opt_attr_text;
use crate::model::utils::render_css_class;
use crate::model::utils::render_generic_attribute;
use crate::model::utils::render_required_attribute;
use crate::model::utils::Color;
use crate::model::utils::CssClass;
use crate::model::utils::SizePx;
use crate::model::{SectionCompatible, max_height_section, node_text, push_close_tag, push_open_tag, push_tag_end, render_section_children, section_children_text};

verus! {

/// The document body: an ordered run of section-slot nodes.
pub struct MjBody {
    pub content: Vec<SectionCompatible>,
    pub attributes: MjBodyAttributes,
}

pub struct MjBodyAttributes {
    pub background_color: Option<Color>,
    pub width: SizePx,
    pub css_class: Vec<CssClass>,
}

impl Default for MjBodyAttributes {
    /// The body defaults to a width of six hundred pixels and nothing
    /// else set.
    fn default() -> (r: Self)
        ensures
            r.background_color is None,
            r.width.spec_size() == 600,
            r.css_class@.len() == 0,
    {
        MjBodyAttributes { background_color: None, width: SizePx::new(600), css_class: Vec::new() }
    }
}

impl MjBodyAttributes {
    /// The rendered attribute text, in declared order.
    #[verifier::opaque]
    pub open spec fn text(self) -> Seq<char> {
        opt_attr_text("background-color"@, self.background_color)
            + list_attr_text("css-class"@, self.css_class@.map_values(|s: String| s@))
            + attr_text("width"@, self.width.value_text())
    }

    pub fn render(&self, out: &mut String)
        ensures
            final(out)@ == old(out)@ + self.text(),
    {
        render_generic_attribute(out, "background-color", &self.background_color);
        render_css_class(out, &self.css_class);
        render_required_attribute(out, "width", &self.width);
        proof {
            broadcast use crate::model::utils::lemma_seq_add_assoc;

            reveal(MjBodyAttributes::text);
            assert(out@ == old(out)@ + self.text());
        }
    }
}

impl MjBody {
    /// The inner payload: the child nodes, each at the given depth.
    pub open spec fn content_text(self, depth: nat) -> Seq<char>
        decreases self, 0int,
    {
        section_children_text(self.content@, depth)
    }

    /// The whole rendered text of this node at the given depth.
    pub open spec fn text(self, depth: nat) -> Seq<char>
        decreases self, 1int,
    {
        node_text(depth, "mj-body"@, self.attributes.text(), true, self.content_text(depth + 1))
    }

    /// How many nesting levels this node renders, itself included.
    pub open spec fn height(self) -> nat
        decreases self, 1int,
    {
        1 + max_height_section(self.content@)
    }

    pub fn name(&self) -> (r: &'static str)
        ensures
            r@ == "mj-body"@,
    {
        "mj-body"
    }

    pub fn has_content(&self) -> (r: bool)
        ensures
            r,
    {
        true
    }

    /// Writes the child nodes only, not the enclosing tags.
    pub fn render_content(&self, out: &mut String, depth: usize)
        requires
            depth + max_height_section(self.content@) <= usize::MAX,
        ensures
            final(out)@ == old(out)@ + self.content_text(depth as nat),
        decreases *self, 0int,
    {
        render_section_children(out, &self.content, depth);
    }

    /// Writes this node and everything below it at the given depth.
    pub fn render(&self, out: &mut String, depth: usize)
        requires
            depth + self.height() <= usize::MAX,
        ensures
            final(out)@ == old(out)@ + self.text(depth as nat),
        decreases *self, 1int,
    {
        push_open_tag(out, depth, "mj-body");
        self.attributes.render(out);
        push_tag_end(out);
        self.render_content(out, depth + 1);
        push_close_tag(out, depth, "mj-body");
        proof {
            broadcast use crate::model::utils::lemma_seq_add_assoc;

            assert(out@ == old(out)@ + self.text(depth as nat));
        }
    }
}

} // verus!
