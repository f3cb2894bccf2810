//! The `mj-carousel` element: an ordered run of homogeneous
//! `mj-carousel-image` sub-elements.
use vstd::prelude::*;

use vstd::string::StringExecFns;
use crate::model::utils::list_attr_text;
use crate::model::utils::opt_attr_text;
use crate::model::utils::render_css_class;
use crate::model::utils::render_generic_attribute;
use crate::model::utils::Alignment;
use crate::model::utils::AttributeValue;
use crate::model::utils::BorderProperties;
use crate::model::utils::Color;
use crate::model::utils::CssClass;
use crate::model::utils::Html;
use crate::model::utils::SizePx;
use crate::model::utils::Url;
use crate::model::{
    BaseComponent,
    MjBodyComponent,
    node_text,
    push_close_tag,
    push_open_tag,
    push_tag_end,
    push_text_line,
    text_line,
};

verus! {

/// A rotating image gallery: an ordered run of carousel images.
pub struct MjCarousel {
    pub images: Vec<MjCarouselImage>,
    pub attributes: MjCarouselAttributes,
}

/// One slide of a carousel, its caption carried as literal HTML.
pub struct MjCarouselImage {
    pub content: Html,
    pub attributes: MjCarouselImageAttributes,
}

/// Whether thumbnails show under the carousel.
#[derive(Debug, Clone, Copy, PartialEq, Eq)]
pub enum Visibility {
    Visible,
    Hidden,
}

impl AttributeValue for Visibility {
    open spec fn value_text(&self) -> Seq<char> {
        match self {
            Visibility::Visible => "visible"@,
            Visibility::Hidden => "hidden"@,
        }
    }

    fn render_value(&self, out: &mut String) {
        match self {
            Visibility::Visible => out.append("visible"),
            Visibility::Hidden => out.append("hidden"),
        }
    }
}

#[derive(Default)]
pub struct MjCarouselAttributes {
    pub align: Option<Alignment>,
    pub container_background_color: Option<Color>,
    pub border_radius: Option<SizePx>,
    pub css_class: Vec<CssClass>,
    pub icon_width: Option<SizePx>,
    pub left_icon: Option<Url>,
    pub right_icon: Option<Url>,
    pub tb_border: Option<BorderProperties>,
    pub tb_border_radius: Option<SizePx>,
    pub tb_border_hover_color: Option<Color>,
    pub tb_selected_border_color: Option<Color>,
    pub tb_width: Option<SizePx>,
    pub thumbnails: Option<Visibility>,
}

#[derive(Default)]
pub struct MjCarouselImageAttributes {
    pub alt: Option<String>,
    pub css_class: Vec<CssClass>,
    pub href: Option<Url>,
    pub rel: Option<String>,
    pub src: Option<Url>,
    pub target: Option<String>,
    pub thumbnail_src: Option<String>,
    pub title: Option<String>,
}

impl MjCarouselAttributes {
    /// The rendered attribute text, in declared order.
    #[verifier::opaque]
    pub open spec fn text(self) -> Seq<char> {
        opt_attr_text("align"@, self.align)
            + opt_attr_text("container-background-color"@, self.container_background_color)
            + opt_attr_text("border-radius"@, self.border_radius)
            + list_attr_text("css-class"@, self.css_class@.map_values(|s: String| s@))
            + opt_attr_text("icon-width"@, self.icon_width)
            + opt_attr_text("left-icon"@, self.left_icon)
            + opt_attr_text("right-icon"@, self.right_icon)
            + opt_attr_text("tb-border"@, self.tb_border)
            + opt_attr_text("tb-border-radius"@, self.tb_border_radius)
            + opt_attr_text("tb-border-hover-color"@, self.tb_border_hover_color)
            + opt_attr_text("tb-selected-border-color"@, self.tb_selected_border_color)
            + opt_attr_text("tb-width"@, self.tb_width)
            + opt_attr_text("thumbnails"@, self.thumbnails)
    }

    pub fn render(&self, out: &mut String)
        ensures
            final(out)@ == old(out)@ + self.text(),
    {
        render_generic_attribute(out, "align", &self.align);
        render_generic_attribute(out, "container-background-color", &self.container_background_color);
        render_generic_attribute(out, "border-radius", &self.border_radius);
        render_css_class(out, &self.css_class);
        render_generic_attribute(out, "icon-width", &self.icon_width);
        render_generic_attribute(out, "left-icon", &self.left_icon);
        render_generic_attribute(out, "right-icon", &self.right_icon);
        render_generic_attribute(out, "tb-border", &self.tb_border);
        render_generic_attribute(out, "tb-border-radius", &self.tb_border_radius);
        render_generic_attribute(out, "tb-border-hover-color", &self.tb_border_hover_color);
        render_generic_attribute(out, "tb-selected-border-color", &self.tb_selected_border_color);
        render_generic_attribute(out, "tb-width", &self.tb_width);
        render_generic_attribute(out, "thumbnails", &self.thumbnails);
        proof {
            broadcast use crate::model::utils::lemma_seq_add_assoc;

            reveal(MjCarouselAttributes::text);
            assert(out@ == old(out)@ + self.text());
        }
    }
}

impl MjCarouselImageAttributes {
    /// The rendered attribute text, in declared order.
    #[verifier::opaque]
    pub open spec fn text(self) -> Seq<char> {
        opt_attr_text("alt"@, self.alt)
            + list_attr_text("css-class"@, self.css_class@.map_values(|s: String| s@))
            + opt_attr_text("href"@, self.href)
            + opt_attr_text("rel"@, self.rel)
            + opt_attr_text("src"@, self.src)
            + opt_attr_text("target"@, self.target)
            + opt_attr_text("thumbnail-src"@, self.thumbnail_src)
            + opt_attr_text("title"@, self.title)
    }

    pub fn render(&self, out: &mut String)
        ensures
            final(out)@ == old(out)@ + self.text(),
    {
        render_generic_attribute(out, "alt", &self.alt);
        render_css_class(out, &self.css_class);
        render_generic_attribute(out, "href", &self.href);
        render_generic_attribute(out, "rel", &self.rel);
        render_generic_attribute(out, "src", &self.src);
        render_generic_attribute(out, "target", &self.target);
        render_generic_attribute(out, "thumbnail-src", &self.thumbnail_src);
        render_generic_attribute(out, "title", &self.title);
        proof {
            broadcast use crate::model::utils::lemma_seq_add_assoc;

            reveal(MjCarouselImageAttributes::text);
            assert(out@ == old(out)@ + self.text());
        }
    }
}

/// The rendered text of a run of child elements, in order.
pub open spec fn carousel_images_text(s: Seq<MjCarouselImage>, depth: nat) -> Seq<char>
    decreases s,
{
    if s.len() == 0 {
        Seq::empty()
    } else {
        carousel_images_text(s.drop_last(), depth) + s.last().text(depth)
    }
}

impl MjCarousel {
    /// The inner payload: the child elements, each at the given depth.
    #[verifier::opaque]
    pub open spec fn content_text(self, depth: nat) -> Seq<char> {
        carousel_images_text(self.images@, depth)
    }

    /// The whole rendered text of this node at the given depth.
    #[verifier::opaque]
    pub open spec fn text(self, depth: nat) -> Seq<char> {
        node_text(depth, "mj-carousel"@, self.attributes.text(), true, self.content_text(depth + 1))
    }

    /// How many nesting levels this node renders, itself included.
    pub open spec fn height(self) -> nat {
        3
    }

    pub fn name(&self) -> (r: &'static str)
        ensures
            r@ == "mj-carousel"@,
    {
        "mj-carousel"
    }

    pub fn has_content(&self) -> (r: bool)
        ensures
            r,
    {
        true
    }

    /// Writes the child elements only, not the enclosing tags.
    #[verifier::loop_isolation(false)]
    pub fn render_content(&self, out: &mut String, depth: usize)
        requires
            depth + 2 <= usize::MAX,
        ensures
            final(out)@ == old(out)@ + self.content_text(depth as nat),
    {
        let mut i: usize = 0;
        while i < self.images.len()
            invariant
                i <= self.images.len(),
                out@ == old(out)@ + carousel_images_text(self.images@.take(i as int), depth as nat),
            decreases self.images.len() - i,
        {
            self.images[i].render(out, depth);
            proof {
                broadcast use crate::model::utils::lemma_seq_add_assoc;

                assert(self.images@.take(i + 1 as int).drop_last() =~= self.images@.take(
                    i as int,
                ));
                assert(self.images@.take(i + 1 as int).last() == self.images@[i as int]);
                assert(out@ == old(out)@ + carousel_images_text(
                    self.images@.take(i + 1 as int),
                    depth as nat,
                ));
            }
            i = i + 1;
        }
        proof {
            reveal(MjCarousel::content_text);
            assert(self.images@.take(self.images.len() as int) =~= self.images@);
        }
    }

    /// Writes this node and everything below it at the given depth.
    pub fn render(&self, out: &mut String, depth: usize)
        requires
            depth + self.height() <= usize::MAX,
        ensures
            final(out)@ == old(out)@ + self.text(depth as nat),
    {
        push_open_tag(out, depth, "mj-carousel");
        self.attributes.render(out);
        push_tag_end(out);
        self.render_content(out, depth + 1);
        push_close_tag(out, depth, "mj-carousel");
        proof {
            broadcast use crate::model::utils::lemma_seq_add_assoc;

            reveal(MjCarousel::text);
            assert(out@ == old(out)@ + self.text(depth as nat));
        }
    }
}

impl MjCarouselImage {
    /// The inner payload: one line of literal text at the given depth.
    #[verifier::opaque]
    pub open spec fn content_text(self, depth: nat) -> Seq<char> {
        text_line(depth, self.content@)
    }

    /// The whole rendered text of this node at the given depth.
    #[verifier::opaque]
    pub open spec fn text(self, depth: nat) -> Seq<char> {
        node_text(depth, "mj-carousel-image"@, self.attributes.text(), true, self.content_text(depth + 1))
    }

    /// How many nesting levels this node renders, itself included.
    pub open spec fn height(self) -> nat {
        2
    }

    pub fn name(&self) -> (r: &'static str)
        ensures
            r@ == "mj-carousel-image"@,
    {
        "mj-carousel-image"
    }

    pub fn has_content(&self) -> (r: bool)
        ensures
            r,
    {
        true
    }

    /// Writes the inner payload only, not the enclosing tags.
    pub fn render_content(&self, out: &mut String, depth: usize)
        ensures
            final(out)@ == old(out)@ + self.content_text(depth as nat),
    {
        push_text_line(out, depth, self.content.as_str());
        proof {
            reveal(MjCarouselImage::content_text);
        }
    }

    /// Writes this node and everything below it at the given depth.
    pub fn render(&self, out: &mut String, depth: usize)
        requires
            depth + self.height() <= usize::MAX,
        ensures
            final(out)@ == old(out)@ + self.text(depth as nat),
    {
        push_open_tag(out, depth, "mj-carousel-image");
        self.attributes.render(out);
        push_tag_end(out);
        self.render_content(out, depth + 1);
        push_close_tag(out, depth, "mj-carousel-image");
        proof {
            broadcast use crate::model::utils::lemma_seq_add_assoc;

            reveal(MjCarouselImage::text);
            assert(out@ == old(out)@ + self.text(depth as nat));
        }
    }
}


impl MjBodyComponent for MjCarousel {
    open spec fn as_base(self) -> BaseComponent {
        BaseComponent::Carousel(self)
    }

    fn to_base_component(self) -> (r: BaseComponent) {
        BaseComponent::Carousel(self)
    }
}

} // verus!
