//! The `mj-navbar` element: an ordered run of homogeneous
//! `mj-navbar-link` sub-elements.
use vstd::prelude::*;

use crate::model::utils::list_attr_text;
use crate::model::utils::opt_attr_text;
use crate::model::utils::opt_padding_text;
use crate::model::utils::render_css_class;
use crate::model::utils::render_font_family;
use crate::model::utils::render_generic_attribute;
use crate::model::utils::render_padding_opt;
use crate::model::utils::render_string_list_attribute;
use crate::model::utils::Alignment;
use crate::model::utils::Color;
use crate::model::utils::CssClass;
use crate::model::utils::FontStyle;
use crate::model::utils::Html;
use crate::model::utils::Padding;
use crate::model::utils::PxOrEm;
use crate::model::utils::SizePx;
use crate::model::utils::TextDecoration;
use crate::model::utils::TextTransform;
use crate::model::utils::Url;
use crate::model::{
    BaseComponent,
    MjBodyComponent,
    node_text,
    push_close_tag,
    push_open_tag,
    push_tag_end,
    push_text_line,
    text_line,
};

verus! {

/// A navigation bar: an ordered run of homogeneous links.
pub struct MjNavbar {
    pub links: Vec<MjNavbarLink>,
    pub attributes: MjNavbarAttributes,
}

/// One link of a navigation bar, its label carried as literal HTML.
pub struct MjNavbarLink {
    pub content: Html,
    pub attributes: MjNavbarLinkAttributes,
}

#[derive(Default)]
pub struct MjNavbarAttributes {
    pub align: Option<Alignment>,
    pub base_url: Option<String>,
    pub css_class: Vec<CssClass>,
    pub hamburger: Option<MjNavbarHamburgerAttributes>,
}

/// The hamburger-menu settings, rendered inline on the navbar tag.
#[derive(Default)]
pub struct MjNavbarHamburgerAttributes {
    pub ico_align: Option<Alignment>,
    pub ico_close: Option<u32>,
    pub ico_color: Option<Color>,
    pub ico_font_family: Vec<String>,
    pub ico_font_size: Option<SizePx>,
    pub ico_line_height: Option<SizePx>,
    pub ico_open: Option<u32>,
    pub ico_padding: Option<Padding>,
    pub ico_text_decoration: Option<TextDecoration>,
    pub ico_text_transform: Option<TextTransform>,
}

#[derive(Default)]
pub struct MjNavbarLinkAttributes {
    pub color: Option<Color>,
    pub css_class: Vec<CssClass>,
    pub font_family: Vec<String>,
    pub font_size: Option<SizePx>,
    pub font_style: Option<FontStyle>,
    pub font_weight: Option<u32>,
    pub href: Option<Url>,
    pub letter_spacing: Option<PxOrEm>,
    pub line_height: Option<SizePx>,
    pub padding: Option<Padding>,
    pub rel: Option<String>,
    pub target: Option<String>,
    pub text_decoration: Option<TextDecoration>,
    pub text_transform: Option<TextTransform>,
}

impl MjNavbarHamburgerAttributes {
    /// The rendered attribute text, in declared order.
    #[verifier::opaque]
    pub open spec fn text(self) -> Seq<char> {
        opt_attr_text("ico-align"@, self.ico_align)
            + opt_attr_text("ico-close"@, self.ico_close)
            + opt_attr_text("ico-color"@, self.ico_color)
            + list_attr_text("ico-font-family"@, self.ico_font_family@.map_values(|s: String| s@))
            + opt_attr_text("ico-font-size"@, self.ico_font_size)
            + opt_attr_text("ico-line-height"@, self.ico_line_height)
            + opt_attr_text("ico-open"@, self.ico_open)
            + opt_padding_text("ico-padding"@, self.ico_padding)
            + opt_attr_text("ico-text-decoration"@, self.ico_text_decoration)
            + opt_attr_text("ico-text-transform"@, self.ico_text_transform)
    }

    pub fn render(&self, out: &mut String)
        ensures
            final(out)@ == old(out)@ + self.text(),
    {
        render_generic_attribute(out, "ico-align", &self.ico_align);
        render_generic_attribute(out, "ico-close", &self.ico_close);
        render_generic_attribute(out, "ico-color", &self.ico_color);
        render_string_list_attribute(out, "ico-font-family", &self.ico_font_family);
        render_generic_attribute(out, "ico-font-size", &self.ico_font_size);
        render_generic_attribute(out, "ico-line-height", &self.ico_line_height);
        render_generic_attribute(out, "ico-open", &self.ico_open);
        render_padding_opt(out, "ico-padding", &self.ico_padding);
        render_generic_attribute(out, "ico-text-decoration", &self.ico_text_decoration);
        render_generic_attribute(out, "ico-text-transform", &self.ico_text_transform);
        proof {
            broadcast use crate::model::utils::lemma_seq_add_assoc;

            reveal(MjNavbarHamburgerAttributes::text);
            assert(out@ == old(out)@ + self.text());
        }
    }
}

impl MjNavbarAttributes {
    /// The rendered attribute text, in declared order.
    #[verifier::opaque]
    pub open spec fn text(self) -> Seq<char> {
        opt_attr_text("align"@, self.align)
            + opt_attr_text("base_url"@, self.base_url)
            + list_attr_text("css-class"@, self.css_class@.map_values(|s: String| s@))
            + (match self.hamburger {
                Option::Some(h) => h.text(),
                Option::None => Seq::empty(),
            })
    }

    pub fn render(&self, out: &mut String)
        ensures
            final(out)@ == old(out)@ + self.text(),
    {
        render_generic_attribute(out, "align", &self.align);
        render_generic_attribute(out, "base_url", &self.base_url);
        render_css_class(out, &self.css_class);
        match &self.hamburger {
            Option::Some(h) => h.render(out),
            Option::None => {}
        }
        proof {
            broadcast use crate::model::utils::lemma_seq_add_assoc;

            reveal(MjNavbarAttributes::text);
            assert(out@ == old(out)@ + self.text());
        }
    }
}

impl MjNavbarLinkAttributes {
    /// The rendered attribute text, in declared order.
    #[verifier::opaque]
    pub open spec fn text(self) -> Seq<char> {
        opt_attr_text("color"@, self.color)
            + list_attr_text("css-class"@, self.css_class@.map_values(|s: String| s@))
            + list_attr_text("font-family"@, self.font_family@.map_values(|s: String| s@))
            + opt_attr_text("font-size"@, self.font_size)
            + opt_attr_text("font-style"@, self.font_style)
            + opt_attr_text("font-weight"@, self.font_weight)
            + opt_attr_text("href"@, self.href)
            + opt_attr_text("letter-spacing"@, self.letter_spacing)
            + opt_attr_text("line-height"@, self.line_height)
            + opt_padding_text("padding"@, self.padding)
            + opt_attr_text("rel"@, self.rel)
            + opt_attr_text("target"@, self.target)
            + opt_attr_text("text-decoration"@, self.text_decoration)
            + opt_attr_text("text-transform"@, self.text_transform)
    }

    pub fn render(&self, out: &mut String)
        ensures
            final(out)@ == old(out)@ + self.text(),
    {
        render_generic_attribute(out, "color", &self.color);
        render_css_class(out, &self.css_class);
        render_font_family(out, &self.font_family);
        render_generic_attribute(out, "font-size", &self.font_size);
        render_generic_attribute(out, "font-style", &self.font_style);
        render_generic_attribute(out, "font-weight", &self.font_weight);
        render_generic_attribute(out, "href", &self.href);
        render_generic_attribute(out, "letter-spacing", &self.letter_spacing);
        render_generic_attribute(out, "line-height", &self.line_height);
        render_padding_opt(out, "padding", &self.padding);
        render_generic_attribute(out, "rel", &self.rel);
        render_generic_attribute(out, "target", &self.target);
        render_generic_attribute(out, "text-decoration", &self.text_decoration);
        render_generic_attribute(out, "text-transform", &self.text_transform);
        proof {
            broadcast use crate::model::utils::lemma_seq_add_assoc;

            reveal(MjNavbarLinkAttributes::text);
            assert(out@ == old(out)@ + self.text());
        }
    }
}

/// The rendered text of a run of child elements, in order.
pub open spec fn navbar_links_text(s: Seq<MjNavbarLink>, depth: nat) -> Seq<char>
    decreases s,
{
    if s.len() == 0 {
        Seq::empty()
    } else {
        navbar_links_text(s.drop_last(), depth) + s.last().text(depth)
    }
}

impl MjNavbar {
    /// The inner payload: the child elements, each at the given depth.
    #[verifier::opaque]
    pub open spec fn content_text(self, depth: nat) -> Seq<char> {
        navbar_links_text(self.links@, depth)
    }

    /// The whole rendered text of this node at the given depth.
    #[verifier::opaque]
    pub open spec fn text(self, depth: nat) -> Seq<char> {
        node_text(depth, "mj-navbar"@, self.attributes.text(), true, self.content_text(depth + 1))
    }

    /// How many nesting levels this node renders, itself included.
    pub open spec fn height(self) -> nat {
        3
    }

    pub fn name(&self) -> (r: &'static str)
        ensures
            r@ == "mj-navbar"@,
    {
        "mj-navbar"
    }

    pub fn has_content(&self) -> (r: bool)
        ensures
            r,
    {
        true
    }

    /// Writes the child elements only, not the enclosing tags.
    #[verifier::loop_isolation(false)]
    pub fn render_content(&self, out: &mut String, depth: usize)
        requires
            depth + 2 <= usize::MAX,
        ensures
            final(out)@ == old(out)@ + self.content_text(depth as nat),
    {
        let mut i: usize = 0;
        while i < self.links.len()
            invariant
                i <= self.links.len(),
                out@ == old(out)@ + navbar_links_text(self.links@.take(i as int), depth as nat),
            decreases self.links.len() - i,
        {
            self.links[i].render(out, depth);
            proof {
                broadcast use crate::model::utils::lemma_seq_add_assoc;

                assert(self.links@.take(i + 1 as int).drop_last() =~= self.links@.take(
                    i as int,
                ));
                assert(self.links@.take(i + 1 as int).last() == self.links@[i as int]);
                assert(out@ == old(out)@ + navbar_links_text(
                    self.links@.take(i + 1 as int),
                    depth as nat,
                ));
            }
            i = i + 1;
        }
        proof {
            reveal(MjNavbar::content_text);
            assert(self.links@.take(self.links.len() as int) =~= self.links@);
        }
    }

    /// Writes this node and everything below it at the given depth.
    pub fn render(&self, out: &mut String, depth: usize)
        requires
            depth + self.height() <= usize::MAX,
        ensures
            final(out)@ == old(out)@ + self.text(depth as nat),
    {
        push_open_tag(out, depth, "mj-navbar");
        self.attributes.render(out);
        push_tag_end(out);
        self.render_content(out, depth + 1);
        push_close_tag(out, depth, "mj-navbar");
        proof {
            broadcast use crate::model::utils::lemma_seq_add_assoc;

            reveal(MjNavbar::text);
            assert(out@ == old(out)@ + self.text(depth as nat));
        }
    }
}

impl MjNavbarLink {
    /// The inner payload: one line of literal text at the given depth.
    #[verifier::opaque]
    pub open spec fn content_text(self, depth: nat) -> Seq<char> {
        text_line(depth, self.content@)
    }

    /// The whole rendered text of this node at the given depth.
    #[verifier::opaque]
    pub open spec fn text(self, depth: nat) -> Seq<char> {
        node_text(depth, "mj-navbar-link"@, self.attributes.text(), true, self.content_text(depth + 1))
    }

    /// How many nesting levels this node renders, itself included.
    pub open spec fn height(self) -> nat {
        2
    }

    pub fn name(&self) -> (r: &'static str)
        ensures
            r@ == "mj-navbar-link"@,
    {
        "mj-navbar-link"
    }

    pub fn has_content(&self) -> (r: bool)
        ensures
            r,
    {
        true
    }

    /// Writes the inner payload only, not the enclosing tags.
    pub fn render_content(&self, out: &mut String, depth: usize)
        ensures
            final(out)@ == old(out)@ + self.content_text(depth as nat),
    {
        push_text_line(out, depth, self.content.as_str());
        proof {
            reveal(MjNavbarLink::content_text);
        }
    }

    /// Writes this node and everything below it at the given depth.
    pub fn render(&self, out: &mut String, depth: usize)
        requires
            depth + self.height() <= usize::MAX,
        ensures
            final(out)@ == old(out)@ + self.text(depth as nat),
    {
        push_open_tag(out, depth, "mj-navbar-link");
        self.attributes.render(out);
        push_tag_end(out);
        self.render_content(out, depth + 1);
        push_close_tag(out, depth, "mj-navbar-link");
        proof {
            broadcast use crate::model::utils::lemma_seq_add_assoc;

            reveal(MjNavbarLink::text);
            assert(out@ == old(out)@ + self.text(depth as nat));
        }
    }
}


impl MjBodyComponent for MjNavbar {
    open spec fn as_base(self) -> BaseComponent {
        BaseComponent::Navbar(self)
    }

    fn to_base_component(self) -> (r: BaseComponent) {
        BaseComponent::Navbar(self)
    }
}

} // verus!
