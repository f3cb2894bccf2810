//! The `mj-image` element: a void node whose `src` attribute is
//! required and always renders.
use vstd::prelude::*;

use crate::model::utils::AttributeValue;
use crate::model::utils::attr_text;
use crate::model::utils::list_attr_text;
use crate::model::utils::opt_attr_text;
use crate::model::utils::opt_padding_text;
use crate::model::utils::render_css_class;
use crate::model::utils::render_generic_attribute;
use crate::model::utils::render_padding_opt;
use crate::model::utils::render_required_attribute;
use crate::model::utils::Alignment;
use crate::model::utils::BorderProperties;
use crate::model::utils::Color;
use crate::model::utils::CssClass;
use crate::model::utils::Padding;
use crate::model::utils::SizePx;
use crate::model::utils::Url;
use crate::model::{
    BaseComponent,
    MjBodyComponent,
    node_text,
    push_open_tag,
    push_void_end,
};

verus! {

/// An image, always self-closing; `src` is required and always renders.
pub struct MjImage {
    pub attributes: MjImageAttributes,
}

#[derive(Default)]
pub struct MjImageAttributes {
    pub align: Option<Alignment>,
    pub alt: Option<String>,
    pub border: Option<BorderProperties>,
    pub border_bottom: Option<BorderProperties>,
    pub border_left: Option<BorderProperties>,
    pub border_radius: Option<SizePx>,
    pub border_right: Option<BorderProperties>,
    pub border_top: Option<BorderProperties>,
    pub container_background_color: Option<Color>,
    pub css_class: Vec<CssClass>,
    pub fluid_on_mobile: Option<bool>,
    pub height: Option<SizePx>,
    pub href: Option<Url>,
    pub name: Option<String>,
    pub padding: Option<Padding>,
    pub rel: Option<String>,
    pub sizes: Option<String>,
    pub src: Url,
    pub srcset: Option<String>,
    pub target: Option<String>,
    pub title: Option<String>,
    pub usemap: Option<String>,
    pub width: Option<SizePx>,
}

impl MjImageAttributes {
    /// The rendered attribute text, in declared order.
    #[verifier::opaque]
    pub open spec fn text(self) -> Seq<char> {
        opt_attr_text("align"@, self.align)
            + opt_attr_text("alt"@, self.alt)
            + opt_attr_text("border"@, self.border)
            + opt_attr_text("border-bottom"@, self.border_bottom)
            + opt_attr_text("border-left"@, self.border_left)
            + opt_attr_text("border-right"@, self.border_right)
            + opt_attr_text("border-top"@, self.border_top)
            + opt_attr_text("border-radius"@, self.border_radius)
            + opt_attr_text("container-background-color"@, self.container_background_color)
            + list_attr_text("css-class"@, self.css_class@.map_values(|s: String| s@))
            + opt_attr_text("fluid-on-mobile"@, self.fluid_on_mobile)
            + opt_attr_text("height"@, self.height)
            + opt_attr_text("href"@, self.href)
            + opt_attr_text("name"@, self.name)
            + opt_padding_text("padding"@, self.padding)
            + opt_attr_text("rel"@, self.rel)
            + opt_attr_text("sizes"@, self.sizes)
            + attr_text("src"@, self.src.value_text())
            + opt_attr_text("srcset"@, self.srcset)
            + opt_attr_text("target"@, self.target)
            + opt_attr_text("title"@, self.title)
            + opt_attr_text("usemap"@, self.usemap)
            + opt_attr_text("width"@, self.width)
    }

    pub fn render(&self, out: &mut String)
        ensures
            final(out)@ == old(out)@ + self.text(),
    {
        render_generic_attribute(out, "align", &self.align);
        render_generic_attribute(out, "alt", &self.alt);
        render_generic_attribute(out, "border", &self.border);
        render_generic_attribute(out, "border-bottom", &self.border_bottom);
        render_generic_attribute(out, "border-left", &self.border_left);
        render_generic_attribute(out, "border-right", &self.border_right);
        render_generic_attribute(out, "border-top", &self.border_top);
        render_generic_attribute(out, "border-radius", &self.border_radius);
        render_generic_attribute(out, "container-background-color", &self.container_background_color);
        render_css_class(out, &self.css_class);
        render_generic_attribute(out, "fluid-on-mobile", &self.fluid_on_mobile);
        render_generic_attribute(out, "height", &self.height);
        render_generic_attribute(out, "href", &self.href);
        render_generic_attribute(out, "name", &self.name);
        render_padding_opt(out, "padding", &self.padding);
        render_generic_attribute(out, "rel", &self.rel);
        render_generic_attribute(out, "sizes", &self.sizes);
        render_required_attribute(out, "src", &self.src);
        render_generic_attribute(out, "srcset", &self.srcset);
        render_generic_attribute(out, "target", &self.target);
        render_generic_attribute(out, "title", &self.title);
        render_generic_attribute(out, "usemap", &self.usemap);
        render_generic_attribute(out, "width", &self.width);
        proof {
            broadcast use crate::model::utils::lemma_seq_add_assoc;

            reveal(MjImageAttributes::text);
            assert(out@ == old(out)@ + self.text());
        }
    }
}

impl MjImage {
    /// The whole rendered text of this node at the given depth: a single
    /// self-closing tag line.
    #[verifier::opaque]
    pub open spec fn text(self, depth: nat) -> Seq<char> {
        node_text(depth, "mj-image"@, self.attributes.text(), false, Seq::empty())
    }

    /// How many nesting levels this node renders, itself included.
    pub open spec fn height(self) -> nat {
        1
    }

    pub fn name(&self) -> (r: &'static str)
        ensures
            r@ == "mj-image"@,
    {
        "mj-image"
    }

    pub fn has_content(&self) -> (r: bool)
        ensures
            !r,
    {
        false
    }

    /// Writes this node at the given depth.
    pub fn render(&self, out: &mut String, depth: usize)
        requires
            depth + self.height() <= usize::MAX,
        ensures
            final(out)@ == old(out)@ + self.text(depth as nat),
    {
        push_open_tag(out, depth, "mj-image");
        self.attributes.render(out);
        push_void_end(out);
        proof {
            broadcast use crate::model::utils::lemma_seq_add_assoc;

            reveal(MjImage::text);
            assert(out@ == old(out)@ + self.text(depth as nat));
        }
    }
}


impl MjBodyComponent for MjImage {
    open spec fn as_base(self) -> BaseComponent {
        BaseComponent::Image(self)
    }

    fn to_base_component(self) -> (r: BaseComponent) {
        BaseComponent::Image(self)
    }
}

} // verus!
