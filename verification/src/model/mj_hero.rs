//! The `mj-hero` element: a banner whose background measurements are
//! required, with an enumerated sizing mode.
use vstd::prelude::*;

use vstd::string::StringExecFns;
use crate::model::utils::AttributeValue;
use crate::model::utils::attr_text;
use crate::model::utils::opt_attr_text;
use crate::model::utils::opt_padding_text;
use crate::model::utils::render_generic_attribute;
use crate::model::utils::render_keyword_attribute;
use crate::model::utils::render_padding_opt;
use crate::model::utils::render_required_attribute;
use crate::model::utils::Alignment;
use crate::model::utils::Color;
use crate::model::utils::Padding;
use crate::model::utils::SizePx;
use crate::model::utils::Url;
use crate::model::utils::VerticalAlignment;
use crate::model::{BaseComponent, MjBodyComponent, MjBodySectionComponent, SectionCompatible, base_children_text, max_height_base, node_text, push_close_tag, push_open_tag, push_tag_end, render_base_children};

verus! {

/// How a hero sizes its background.
#[derive(Debug, Clone, Copy, PartialEq, Eq)]
pub enum HeroMode {
    FluidHeight,
    FixedHeight(SizePx),
}

/// A hero banner over a background image; its three background
/// measurements are required and always render.
pub struct MjHero {
    pub content: Vec<BaseComponent>,
    pub attributes: MjHeroAttributes,
}

pub struct MjHeroAttributes {
    pub background_height: SizePx,
    pub background_width: SizePx,
    pub background_color: Color,
    pub background_url: Option<Url>,
    pub background_position: Option<(Alignment, VerticalAlignment)>,
    pub border_radius: Option<SizePx>,
    pub mode: Option<HeroMode>,
    pub padding: Option<Padding>,
    pub vertical_align: Option<VerticalAlignment>,
}

/// The rendered `background-position` attribute: a horizontal and a
/// vertical keyword separated by one space, absent when unset.
#[verifier::opaque]
pub open spec fn background_position_text(p: Option<(Alignment, VerticalAlignment)>) -> Seq<char> {
    match p {
        Option::Some((a, v)) => attr_text(
            "background-position"@,
            a.value_text() + seq![' '] + v.value_text(),
        ),
        Option::None => Seq::empty(),
    }
}

/// Renders the `background-position` attribute.
fn render_background_position(out: &mut String, p: &Option<(Alignment, VerticalAlignment)>)
    ensures
        final(out)@ == old(out)@ + background_position_text(*p),
{
    proof {
        reveal(background_position_text);
    }
    match p {
        Option::Some(pos) => {
            let (a, v) = pos;
            out.append(" ");
            out.append("background-position");
            out.append("=\"");
            a.render_value(out);
            out.append(" ");
            v.render_value(out);
            out.append("\"");
            proof {
                broadcast use crate::model::utils::lemma_seq_add_assoc;

                reveal_strlit(" ");
                reveal(background_position_text);
                assert(out@ == old(out)@ + background_position_text(*p));
            }
        }
        Option::None => {}
    }
}

/// The rendered `mode` attribute: the fluid-height keyword alone, or the
/// fixed-height keyword followed by a `height` attribute.
#[verifier::opaque]
pub open spec fn hero_mode_text(m: Option<HeroMode>) -> Seq<char> {
    match m {
        Option::Some(HeroMode::FluidHeight) => attr_text("mode"@, "fluid-height"@),
        Option::Some(HeroMode::FixedHeight(h)) => attr_text("mode"@, "fixed-height"@)
            + attr_text("height"@, h.value_text()),
        Option::None => Seq::empty(),
    }
}

/// Renders the `mode` attribute and, for a fixed height, the `height`
/// attribute beside it.
fn render_hero_mode(out: &mut String, m: &Option<HeroMode>)
    ensures
        final(out)@ == old(out)@ + hero_mode_text(*m),
{
    proof {
        reveal(hero_mode_text);
    }
    match m {
        Option::Some(HeroMode::FluidHeight) => {
            render_keyword_attribute(out, "mode", "fluid-height");
        }
        Option::Some(HeroMode::FixedHeight(h)) => {
            render_keyword_attribute(out, "mode", "fixed-height");
            render_required_attribute(out, "height", h);
            proof {
                broadcast use crate::model::utils::lemma_seq_add_assoc;

                assert(out@ == old(out)@ + hero_mode_text(*m));
            }
        }
        Option::None => {}
    }
}

impl MjHeroAttributes {
    /// The rendered attribute text, in declared order.
    #[verifier::opaque]
    pub open spec fn text(self) -> Seq<char> {
        attr_text("background-height"@, self.background_height.value_text())
            + attr_text("background-width"@, self.background_width.value_text())
            + attr_text("background-color"@, self.background_color.value_text())
            + opt_attr_text("background-url"@, self.background_url)
            + background_position_text(self.background_position)
            + opt_attr_text("border-radius"@, self.border_radius)
            + hero_mode_text(self.mode)
            + opt_padding_text("padding"@, self.padding)
            + opt_attr_text("vertical-align"@, self.vertical_align)
    }

    #[verifier::rlimit(100)]
    pub fn render(&self, out: &mut String)
        ensures
            final(out)@ == old(out)@ + self.text(),
    {
        render_required_attribute(out, "background-height", &self.background_height);
        render_required_attribute(out, "background-width", &self.background_width);
        render_required_attribute(out, "background-color", &self.background_color);
        render_generic_attribute(out, "background-url", &self.background_url);
        render_background_position(out, &self.background_position);
        render_generic_attribute(out, "border-radius", &self.border_radius);
        render_hero_mode(out, &self.mode);
        render_padding_opt(out, "padding", &self.padding);
        render_generic_attribute(out, "vertical-align", &self.vertical_align);
        proof {
            broadcast use crate::model::utils::lemma_seq_add_assoc;

            reveal(MjHeroAttributes::text);
            assert(out@ == old(out)@ + self.text());
        }
    }
}

impl MjHero {
    /// The inner payload: the child nodes, each at the given depth.
    pub open spec fn content_text(self, depth: nat) -> Seq<char>
        decreases self, 0int,
    {
        base_children_text(self.content@, depth)
    }

    /// The whole rendered text of this node at the given depth.
    pub open spec fn text(self, depth: nat) -> Seq<char>
        decreases self, 1int,
    {
        node_text(depth, "mj-hero"@, self.attributes.text(), true, self.content_text(depth + 1))
    }

    /// How many nesting levels this node renders, itself included.
    pub open spec fn height(self) -> nat
        decreases self, 1int,
    {
        1 + max_height_base(self.content@)
    }

    pub fn name(&self) -> (r: &'static str)
        ensures
            r@ == "mj-hero"@,
    {
        "mj-hero"
    }

    pub fn has_content(&self) -> (r: bool)
        ensures
            r,
    {
        true
    }

    /// Writes the child nodes only, not the enclosing tags.
    pub fn render_content(&self, out: &mut String, depth: usize)
        requires
            depth + max_height_base(self.content@) <= usize::MAX,
        ensures
            final(out)@ == old(out)@ + self.content_text(depth as nat),
        decreases *self, 0int,
    {
        render_base_children(out, &self.content, depth);
    }

    /// Writes this node and everything below it at the given depth.
    pub fn render(&self, out: &mut String, depth: usize)
        requires
            depth + self.height() <= usize::MAX,
        ensures
            final(out)@ == old(out)@ + self.text(depth as nat),
        decreases *self, 1int,
    {
        push_open_tag(out, depth, "mj-hero");
        self.attributes.render(out);
        push_tag_end(out);
        self.render_content(out, depth + 1);
        push_close_tag(out, depth, "mj-hero");
        proof {
            broadcast use crate::model::utils::lemma_seq_add_assoc;

            assert(out@ == old(out)@ + self.text(depth as nat));
        }
    }
}

impl MjBodyComponent for MjHero {
    open spec fn as_base(self) -> BaseComponent {
        BaseComponent::Hero(self)
    }

    fn to_base_component(self) -> (r: BaseComponent) {
        BaseComponent::Hero(self)
    }
}

impl MjBodySectionComponent for MjHero {
    open spec fn as_section(self) -> SectionCompatible {
        SectionCompatible::Hero(self)
    }

    fn to_section(self) -> (r: SectionCompatible) {
        SectionCompatible::Hero(self)
    }
}

} // verus!
