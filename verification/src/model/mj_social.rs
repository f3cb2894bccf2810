//! The `mj-social` element: an ordered run of homogeneous
//! `mj-social-element` sub-elements.
use vstd::prelude::*;

use vstd::string::StringExecFns;
use crate::model::utils::list_attr_text;
use crate::model::utils::opt_attr_text;
use crate::model::utils::opt_padding_text;
use crate::model::utils::render_css_class;
use crate::model::utils::render_font_family;
use crate::model::utils::render_generic_attribute;
use crate::model::utils::render_padding_opt;
use crate::model::utils::Alignment;
use crate::model::utils::AttributeValue;
use crate::model::utils::Color;
use crate::model::utils::CssClass;
use crate::model::utils::FontStyle;
use crate::model::utils::Html;
use crate::model::utils::Padding;
use crate::model::utils::PxOrEm;
use crate::model::utils::PxOrPercent;
use crate::model::utils::SizePx;
use crate::model::utils::TextDecoration;
use crate::model::utils::Url;
use crate::model::utils::VerticalAlignment;
use crate::model::{
    BaseComponent,
    MjBodyComponent,
    node_text,
    push_close_tag,
    push_open_tag,
    push_tag_end,
    push_text_line,
    text_line,
};

verus! {

/// A row or column of social-network icons.
pub struct MjSocial {
    pub elements: Vec<MjSocialElement>,
    pub attributes: MjSocialAttributes,
}

/// One social-network entry, its label carried as literal HTML.
pub struct MjSocialElement {
    pub content: Html,
    pub attributes: MjSocialElementAttributes,
}

/// How the icons stack.
#[derive(Debug, Clone, Copy, PartialEq, Eq)]
pub enum SocialMode {
    Vertical,
    Horizontal,
}

impl AttributeValue for SocialMode {
    open spec fn value_text(&self) -> Seq<char> {
        match self {
            SocialMode::Vertical => "vertical"@,
            SocialMode::Horizontal => "horizontal"@,
        }
    }

    fn render_value(&self, out: &mut String) {
        match self {
            SocialMode::Vertical => out.append("vertical"),
            SocialMode::Horizontal => out.append("horizontal"),
        }
    }
}

#[derive(Default)]
pub struct MjSocialAttributes {
    pub align: Option<Alignment>,
    pub border_radius: Option<SizePx>,
    pub color: Option<Color>,
    pub css_class: Vec<CssClass>,
    pub container_background_color: Option<Color>,
    pub font_family: Vec<String>,
    pub font_size: Option<PxOrEm>,
    pub font_style: Option<FontStyle>,
    pub font_weight: Option<u32>,
    pub icon_height: Option<PxOrPercent>,
    pub icon_size: Option<PxOrPercent>,
    pub inner_padding: Option<Padding>,
    pub line_height: Option<PxOrPercent>,
    pub mode: Option<SocialMode>,
    pub padding: Option<Padding>,
    pub icon_padding: Option<Padding>,
    pub text_padding: Option<Padding>,
    pub text_decoration: Option<TextDecoration>,
}

#[derive(Default)]
pub struct MjSocialElementAttributes {
    pub align: Option<Alignment>,
    pub alt: Option<String>,
    pub background_color: Option<Color>,
    pub border_radius: Option<SizePx>,
    pub color: Option<Color>,
    pub css_class: Vec<CssClass>,
    pub font_family: Vec<String>,
    pub font_size: Option<PxOrEm>,
    pub font_style: Option<FontStyle>,
    pub font_weight: Option<u32>,
    pub href: Option<Url>,
    pub icon_height: Option<PxOrPercent>,
    pub icon_size: Option<PxOrPercent>,
    pub line_height: Option<PxOrPercent>,
    pub name: Option<String>,
    pub padding: Option<Padding>,
    pub icon_padding: Option<Padding>,
    pub text_padding: Option<Padding>,
    pub sizes: Option<String>,
    pub src: Option<Url>,
    pub srcset: Option<String>,
    pub rel: Option<String>,
    pub target: Option<String>,
    pub title: Option<String>,
    pub text_decoration: Option<TextDecoration>,
    pub vertical_align: Option<VerticalAlignment>,
}

/// A well-known social network keyword.
#[derive(Debug, Clone, Copy, PartialEq, Eq)]
pub enum SocialName {
    Facebook,
    Twitter,
    Google,
    Pinterest,
    Linkedin,
    Tumblr,
    Xing,
    FacebookNoShare,
    TwitterNoShare,
    GoogleNoShare,
    PinterestNoShare,
    LinkedinNoShare,
    TumblrNoShare,
    XingNoShare,
    Github,
    Instagram,
    Web,
    Snapchat,
    Youtube,
    Vimeo,
    Medium,
    Soundcloud,
    Dribble,
}

impl AttributeValue for SocialName {
    open spec fn value_text(&self) -> Seq<char> {
        match self {
            SocialName::Facebook => "facebook"@,
            SocialName::Twitter => "twitter"@,
            SocialName::Google => "google"@,
            SocialName::Pinterest => "pinterest"@,
            SocialName::Linkedin => "linkedin"@,
            SocialName::Tumblr => "tumblr"@,
            SocialName::Xing => "xing"@,
            SocialName::FacebookNoShare => "facebook-noshare"@,
            SocialName::TwitterNoShare => "twitter-noshare"@,
            SocialName::GoogleNoShare => "googleN-noshare"@,
            SocialName::PinterestNoShare => "pinterest-noshare"@,
            SocialName::LinkedinNoShare => "linkedin-noshare"@,
            SocialName::TumblrNoShare => "tumblr-noshare"@,
            SocialName::XingNoShare => "xing-noshare"@,
            SocialName::Github => "github"@,
            SocialName::Instagram => "instagram"@,
            SocialName::Web => "web"@,
            SocialName::Snapchat => "snapchat"@,
            SocialName::Youtube => "youtube"@,
            SocialName::Vimeo => "vimeo"@,
            SocialName::Medium => "medium"@,
            SocialName::Soundcloud => "soundcloud"@,
            SocialName::Dribble => "dribble"@,
        }
    }

    fn render_value(&self, out: &mut String) {
        match self {
            SocialName::Facebook => out.append("facebook"),
            SocialName::Twitter => out.append("twitter"),
            SocialName::Google => out.append("google"),
            SocialName::Pinterest => out.append("pinterest"),
            SocialName::Linkedin => out.append("linkedin"),
            SocialName::Tumblr => out.append("tumblr"),
            SocialName::Xing => out.append("xing"),
            SocialName::FacebookNoShare => out.append("facebook-noshare"),
            SocialName::TwitterNoShare => out.append("twitter-noshare"),
            SocialName::GoogleNoShare => out.append("googleN-noshare"),
            SocialName::PinterestNoShare => out.append("pinterest-noshare"),
            SocialName::LinkedinNoShare => out.append("linkedin-noshare"),
            SocialName::TumblrNoShare => out.append("tumblr-noshare"),
            SocialName::XingNoShare => out.append("xing-noshare"),
            SocialName::Github => out.append("github"),
            SocialName::Instagram => out.append("instagram"),
            SocialName::Web => out.append("web"),
            SocialName::Snapchat => out.append("snapchat"),
            SocialName::Youtube => out.append("youtube"),
            SocialName::Vimeo => out.append("vimeo"),
            SocialName::Medium => out.append("medium"),
            SocialName::Soundcloud => out.append("soundcloud"),
            SocialName::Dribble => out.append("dribble"),
        }
    }
}

impl MjSocialAttributes {
    /// The rendered attribute text, in declared order.
    #[verifier::opaque]
    pub open spec fn text(self) -> Seq<char> {
        opt_attr_text("align"@, self.align)
            + opt_attr_text("border-radius"@, self.border_radius)
            + opt_attr_text("color"@, self.color)
            + opt_attr_text("container-background-color"@, self.container_background_color)
            + list_attr_text("css-class"@, self.css_class@.map_values(|s: String| s@))
            + list_attr_text("font-family"@, self.font_family@.map_values(|s: String| s@))
            + opt_attr_text("font-size"@, self.font_size)
            + opt_attr_text("font-style"@, self.font_style)
            + opt_attr_text("font-weight"@, self.font_weight)
            + opt_attr_text("icon-height"@, self.icon_height)
            + opt_attr_text("icon-size"@, self.icon_size)
            + opt_padding_text("inner-padding"@, self.inner_padding)
            + opt_attr_text("line-height"@, self.line_height)
            + opt_attr_text("mode"@, self.mode)
            + opt_padding_text("padding"@, self.padding)
            + opt_padding_text("icon-padding"@, self.icon_padding)
            + opt_padding_text("text-padding"@, self.text_padding)
            + opt_attr_text("text-decoration"@, self.text_decoration)
    }

    pub fn render(&self, out: &mut String)
        ensures
            final(out)@ == old(out)@ + self.text(),
    {
        render_generic_attribute(out, "align", &self.align);
        render_generic_attribute(out, "border-radius", &self.border_radius);
        render_generic_attribute(out, "color", &self.color);
        render_generic_attribute(out, "container-background-color", &self.container_background_color);
        render_css_class(out, &self.css_class);
        render_font_family(out, &self.font_family);
        render_generic_attribute(out, "font-size", &self.font_size);
        render_generic_attribute(out, "font-style", &self.font_style);
        render_generic_attribute(out, "font-weight", &self.font_weight);
        render_generic_attribute(out, "icon-height", &self.icon_height);
        render_generic_attribute(out, "icon-size", &self.icon_size);
        render_padding_opt(out, "inner-padding", &self.inner_padding);
        render_generic_attribute(out, "line-height", &self.line_height);
        render_generic_attribute(out, "mode", &self.mode);
        render_padding_opt(out, "padding", &self.padding);
        render_padding_opt(out, "icon-padding", &self.icon_padding);
        render_padding_opt(out, "text-padding", &self.text_padding);
        render_generic_attribute(out, "text-decoration", &self.text_decoration);
        proof {
            broadcast use crate::model::utils::lemma_seq_add_assoc;

            reveal(MjSocialAttributes::text);
            assert(out@ == old(out)@ + self.text());
        }
    }
}

impl MjSocialElementAttributes {
    /// The rendered attribute text, in declared order.
    #[verifier::opaque]
    pub open spec fn text(self) -> Seq<char> {
        opt_attr_text("align"@, self.align)
            + opt_attr_text("alt"@, self.alt)
            + opt_attr_text("background-color"@, self.background_color)
            + opt_attr_text("border-radius"@, self.border_radius)
            + opt_attr_text("color"@, self.color)
            + list_attr_text("css-class"@, self.css_class@.map_values(|s: String| s@))
            + list_attr_text("font-family"@, self.font_family@.map_values(|s: String| s@))
            + opt_attr_text("font-size"@, self.font_size)
            + opt_attr_text("font-style"@, self.font_style)
            + opt_attr_text("font-weight"@, self.font_weight)
            + opt_attr_text("href"@, self.href)
            + opt_attr_text("icon-height"@, self.icon_height)
            + opt_attr_text("icon-size"@, self.icon_size)
            + opt_attr_text("line-height"@, self.line_height)
            + opt_attr_text("name"@, self.name)
            + opt_padding_text("padding"@, self.padding)
            + opt_padding_text("icon-padding"@, self.icon_padding)
            + opt_padding_text("text-padding"@, self.text_padding)
            + opt_attr_text("sizes"@, self.sizes)
            + opt_attr_text("src"@, self.src)
            + opt_attr_text("srcset"@, self.srcset)
            + opt_attr_text("rel"@, self.rel)
            + opt_attr_text("target"@, self.target)
            + opt_attr_text("title"@, self.title)
            + opt_attr_text("text-decoration"@, self.text_decoration)
            + opt_attr_text("vertical-align"@, self.vertical_align)
    }

    pub fn render(&self, out: &mut String)
        ensures
            final(out)@ == old(out)@ + self.text(),
    {
        render_generic_attribute(out, "align", &self.align);
        render_generic_attribute(out, "alt", &self.alt);
        render_generic_attribute(out, "background-color", &self.background_color);
        render_generic_attribute(out, "border-radius", &self.border_radius);
        render_generic_attribute(out, "color", &self.color);
        render_css_class(out, &self.css_class);
        render_font_family(out, &self.font_family);
        render_generic_attribute(out, "font-size", &self.font_size);
        render_generic_attribute(out, "font-style", &self.font_style);
        render_generic_attribute(out, "font-weight", &self.font_weight);
        render_generic_attribute(out, "href", &self.href);
        render_generic_attribute(out, "icon-height", &self.icon_height);
        render_generic_attribute(out, "icon-size", &self.icon_size);
        render_generic_attribute(out, "line-height", &self.line_height);
        render_generic_attribute(out, "name", &self.name);
        render_padding_opt(out, "padding", &self.padding);
        render_padding_opt(out, "icon-padding", &self.icon_padding);
        render_padding_opt(out, "text-padding", &self.text_padding);
        render_generic_attribute(out, "sizes", &self.sizes);
        render_generic_attribute(out, "src", &self.src);
        render_generic_attribute(out, "srcset", &self.srcset);
        render_generic_attribute(out, "rel", &self.rel);
        render_generic_attribute(out, "target", &self.target);
        render_generic_attribute(out, "title", &self.title);
        render_generic_attribute(out, "text-decoration", &self.text_decoration);
        render_generic_attribute(out, "vertical-align", &self.vertical_align);
        proof {
            broadcast use crate::model::utils::lemma_seq_add_assoc;

            reveal(MjSocialElementAttributes::text);
            assert(out@ == old(out)@ + self.text());
        }
    }
}

/// The rendered text of a run of child elements, in order.
pub open spec fn social_elements_text(s: Seq<MjSocialElement>, depth: nat) -> Seq<char>
    decreases s,
{
    if s.len() == 0 {
        Seq::empty()
    } else {
        social_elements_text(s.drop_last(), depth) + s.last().text(depth)
    }
}

impl MjSocial {
    /// The inner payload: the child elements, each at the given depth.
    #[verifier::opaque]
    pub open spec fn content_text(self, depth: nat) -> Seq<char> {
        social_elements_text(self.elements@, depth)
    }

    /// The whole rendered text of this node at the given depth.
    #[verifier::opaque]
    pub open spec fn text(self, depth: nat) -> Seq<char> {
        node_text(depth, "mj-social"@, self.attributes.text(), true, self.content_text(depth + 1))
    }

    /// How many nesting levels this node renders, itself included.
    pub open spec fn height(self) -> nat {
        3
    }

    pub fn name(&self) -> (r: &'static str)
        ensures
            r@ == "mj-social"@,
    {
        "mj-social"
    }

    pub fn has_content(&self) -> (r: bool)
        ensures
            r,
    {
        true
    }

    /// Writes the child elements only, not the enclosing tags.
    #[verifier::loop_isolation(false)]
    pub fn render_content(&self, out: &mut String, depth: usize)
        requires
            depth + 2 <= usize::MAX,
        ensures
            final(out)@ == old(out)@ + self.content_text(depth as nat),
    {
        let mut i: usize = 0;
        while i < self.elements.len()
            invariant
                i <= self.elements.len(),
                out@ == old(out)@ + social_elements_text(self.elements@.take(i as int), depth as nat),
            decreases self.elements.len() - i,
        {
            self.elements[i].render(out, depth);
            proof {
                broadcast use crate::model::utils::lemma_seq_add_assoc;

                assert(self.elements@.take(i + 1 as int).drop_last() =~= self.elements@.take(
                    i as int,
                ));
                assert(self.elements@.take(i + 1 as int).last() == self.elements@[i as int]);
                assert(out@ == old(out)@ + social_elements_text(
                    self.elements@.take(i + 1 as int),
                    depth as nat,
                ));
            }
            i = i + 1;
        }
        proof {
            reveal(MjSocial::content_text);
            assert(self.elements@.take(self.elements.len() as int) =~= self.elements@);
        }
    }

    /// Writes this node and everything below it at the given depth.
    pub fn render(&self, out: &mut String, depth: usize)
        requires
            depth + self.height() <= usize::MAX,
        ensures
            final(out)@ == old(out)@ + self.text(depth as nat),
    {
        push_open_tag(out, depth, "mj-social");
        self.attributes.render(out);
        push_tag_end(out);
        self.render_content(out, depth + 1);
        push_close_tag(out, depth, "mj-social");
        proof {
            broadcast use crate::model::utils::lemma_seq_add_assoc;

            reveal(MjSocial::text);
            assert(out@ == old(out)@ + self.text(depth as nat));
        }
    }
}

impl MjSocialElement {
    /// The inner payload: one line of literal text at the given depth.
    #[verifier::opaque]
    pub open spec fn content_text(self, depth: nat) -> Seq<char> {
        text_line(depth, self.content@)
    }

    /// The whole rendered text of this node at the given depth.
    #[verifier::opaque]
    pub open spec fn text(self, depth: nat) -> Seq<char> {
        node_text(depth, "mj-social-element"@, self.attributes.text(), true, self.content_text(depth + 1))
    }

    /// How many nesting levels this node renders, itself included.
    pub open spec fn height(self) -> nat {
        2
    }

    pub fn name(&self) -> (r: &'static str)
        ensures
            r@ == "mj-social-element"@,
    {
        "mj-social-element"
    }

    pub fn has_content(&self) -> (r: bool)
        ensures
            r,
    {
        true
    }

    /// Writes the inner payload only, not the enclosing tags.
    pub fn render_content(&self, out: &mut String, depth: usize)
        ensures
            final(out)@ == old(out)@ + self.content_text(depth as nat),
    {
        push_text_line(out, depth, self.content.as_str());
        proof {
            reveal(MjSocialElement::content_text);
        }
    }

    /// Writes this node and everything below it at the given depth.
    pub fn render(&self, out: &mut String, depth: usize)
        requires
            depth + self.height() <= usize::MAX,
        ensures
            final(out)@ == old(out)@ + self.text(depth as nat),
    {
        push_open_tag(out, depth, "mj-social-element");
        self.attributes.render(out);
        push_tag_end(out);
        self.render_content(out, depth + 1);
        push_close_tag(out, depth, "mj-social-element");
        proof {
            broadcast use crate::model::utils::lemma_seq_add_assoc;

            reveal(MjSocialElement::text);
            assert(out@ == old(out)@ + self.text(depth as nat));
        }
    }
}


impl MjBodyComponent for MjSocial {
    open spec fn as_base(self) -> BaseComponent {
        BaseComponent::Social(self)
    }

    fn to_base_component(self) -> (r: BaseComponent) {
        BaseComponent::Social(self)
    }
}

} // verus!
