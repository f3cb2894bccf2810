//! The `mj-table` element: tabular content carried as literal HTML.
use vstd::prelude::*;

use vstd::string::StringExecFns;
use crate::model::utils::attr_text;
use crate::model::utils::list_attr_text;
use crate::model::utils::opt_attr_text;
use crate::model::utils::opt_padding_text;
use crate::model::utils::render_css_class;
use crate::model::utils::render_font_family;
use crate::model::utils::render_generic_attribute;
use crate::model::utils::render_keyword_attribute;
use crate::model::utils::render_padding_opt;
use crate::model::utils::Alignment;
use crate::model::utils::AttributeValue;
use crate::model::utils::BorderProperties;
use crate::model::utils::Color;
use crate::model::utils::CssClass;
use crate::model::utils::Html;
use crate::model::utils::Padding;
use crate::model::utils::PxOrPercent;
use crate::model::utils::SizePx;
use crate::model::{
    BaseComponent,
    MjBodyComponent,
    node_text,
    push_close_tag,
    push_open_tag,
    push_tag_end,
    push_text_line,
    text_line,
};

verus! {

/// A table layout keyword.
#[derive(Debug, Clone, Copy, PartialEq, Eq)]
pub enum TableLayout {
    Auto,
    Fixed,
    Initial,
    Inherit,
}

impl AttributeValue for TableLayout {
    open spec fn value_text(&self) -> Seq<char> {
        match self {
            TableLayout::Auto => "auto"@,
            TableLayout::Fixed => "fixed"@,
            TableLayout::Initial => "initial"@,
            TableLayout::Inherit => "inherit"@,
        }
    }

    fn render_value(&self, out: &mut String) {
        match self {
            TableLayout::Auto => out.append("auto"),
            TableLayout::Fixed => out.append("fixed"),
            TableLayout::Initial => out.append("initial"),
            TableLayout::Inherit => out.append("inherit"),
        }
    }
}

/// A table whose rows are carried as literal HTML.
pub struct MjTable {
    pub content: Html,
    pub attributes: MjTableAttributes,
}

#[derive(Default)]
pub struct MjTableAttributes {
    pub align: Option<Alignment>,
    pub border: Option<BorderProperties>,
    pub cellpadding: Option<SizePx>,
    pub cellspacing: Option<SizePx>,
    pub color: Option<Color>,
    pub container_background_color: Option<Color>,
    pub css_class: Vec<CssClass>,
    pub font_family: Vec<String>,
    pub font_size: Option<SizePx>,
    pub line_height: Option<PxOrPercent>,
    pub padding: Option<Padding>,
    pub presentation_role: bool,
    pub table_layout: Option<TableLayout>,
    pub width: Option<PxOrPercent>,
}

impl MjTableAttributes {
    /// The rendered attribute text, in declared order.
    #[verifier::opaque]
    pub open spec fn text(self) -> Seq<char> {
        opt_attr_text("align"@, self.align)
            + opt_attr_text("border"@, self.border)
            + opt_attr_text("cellpadding"@, self.cellpadding)
            + opt_attr_text("cellspacing"@, self.cellspacing)
            + opt_attr_text("color"@, self.color)
            + opt_attr_text("container-background-color"@, self.container_background_color)
            + list_attr_text("css-class"@, self.css_class@.map_values(|s: String| s@))
            + list_attr_text("font-family"@, self.font_family@.map_values(|s: String| s@))
            + opt_attr_text("font-size"@, self.font_size)
            + opt_attr_text("line-height"@, self.line_height)
            + opt_padding_text("padding"@, self.padding)
            + (if self.presentation_role { attr_text("role"@, "presentation"@) } else { Seq::empty() })
            + opt_attr_text("table-layout"@, self.table_layout)
            + opt_attr_text("width"@, self.width)
    }

    pub fn render(&self, out: &mut String)
        ensures
            final(out)@ == old(out)@ + self.text(),
    {
        render_generic_attribute(out, "align", &self.align);
        render_generic_attribute(out, "border", &self.border);
        render_generic_attribute(out, "cellpadding", &self.cellpadding);
        render_generic_attribute(out, "cellspacing", &self.cellspacing);
        render_generic_attribute(out, "color", &self.color);
        render_generic_attribute(out, "container-background-color", &self.container_background_color);
        render_css_class(out, &self.css_class);
        render_font_family(out, &self.font_family);
        render_generic_attribute(out, "font-size", &self.font_size);
        render_generic_attribute(out, "line-height", &self.line_height);
        render_padding_opt(out, "padding", &self.padding);
        if self.presentation_role {
            render_keyword_attribute(out, "role", "presentation");
        }
        render_generic_attribute(out, "table-layout", &self.table_layout);
        render_generic_attribute(out, "width", &self.width);
        proof {
            broadcast use crate::model::utils::lemma_seq_add_assoc;

            reveal(MjTableAttributes::text);
            assert(out@ == old(out)@ + self.text());
        }
    }
}

impl MjTable {
    /// The inner payload: one line of literal text at the given depth.
    #[verifier::opaque]
    pub open spec fn content_text(self, depth: nat) -> Seq<char> {
        text_line(depth, self.content@)
    }

    /// The whole rendered text of this node at the given depth.
    #[verifier::opaque]
    pub open spec fn text(self, depth: nat) -> Seq<char> {
        node_text(depth, "mj-table"@, self.attributes.text(), true, self.content_text(depth + 1))
    }

    /// How many nesting levels this node renders, itself included.
    pub open spec fn height(self) -> nat {
        2
    }

    pub fn name(&self) -> (r: &'static str)
        ensures
            r@ == "mj-table"@,
    {
        "mj-table"
    }

    pub fn has_content(&self) -> (r: bool)
        ensures
            r,
    {
        true
    }

    /// Writes the inner payload only, not the enclosing tags.
    pub fn render_content(&self, out: &mut String, depth: usize)
        ensures
            final(out)@ == old(out)@ + self.content_text(depth as nat),
    {
        push_text_line(out, depth, self.content.as_str());
        proof {
            reveal(MjTable::content_text);
        }
    }

    /// Writes this node and everything below it at the given depth.
    pub fn render(&self, out: &mut String, depth: usize)
        requires
            depth + self.height() <= usize::MAX,
        ensures
            final(out)@ == old(out)@ + self.text(depth as nat),
    {
        push_open_tag(out, depth, "mj-table");
        self.attributes.render(out);
        push_tag_end(out);
        self.render_content(out, depth + 1);
        push_close_tag(out, depth, "mj-table");
        proof {
            broadcast use crate::model::utils::lemma_seq_add_assoc;

            reveal(MjTable::text);
            assert(out@ == old(out)@ + self.text(depth as nat));
        }
    }
}


impl MjBodyComponent for MjTable {
    open spec fn as_base(self) -> BaseComponent {
        BaseComponent::Table(self)
    }

    fn to_base_component(self) -> (r: BaseComponent) {
        BaseComponent::Table(self)
    }
}

} // verus!
