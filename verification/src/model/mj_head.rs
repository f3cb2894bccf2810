//! The `mj-head` block: document-level settings rendered in a fixed
//! order: attribute defaults, breakpoint, fonts, HTML-attribute
//! injections, preview text, style block, title.
use vstd::prelude::*;

use vstd::string::StringExecFns;

use crate::model::mj_accordion::MjAccordionAttributes;
use crate::model::mj_accordion::MjAccordionElementAttributes;
use crate::model::mj_accordion::MjAccordionElementTextAttributes;
use crate::model::mj_accordion::MjAccordionElementTitleAttributes;
use crate::model::mj_button::MjButtonAttributes;
use crate::model::mj_carousel::MjCarouselAttributes;
use crate::model::mj_carousel::MjCarouselImageAttributes;
use crate::model::mj_column::MjColumnAttributes;
use crate::model::mj_divider::MjDividerAttributes;
use crate::model::mj_group::MjGroupAttributes;
use crate::model::mj_hero::MjHeroAttributes;
use crate::model::mj_image::MjImageAttributes;
use crate::model::mj_navbar::MjNavbarAttributes;
use crate::model::mj_navbar::MjNavbarLinkAttributes;
use crate::model::mj_section::MjSectionAttributes;
use crate::model::mj_social::MjSocialAttributes;
use crate::model::mj_social::MjSocialElementAttributes;
use crate::model::mj_spacer::MjSpacerAttributes;
use crate::model::mj_table::MjTableAttributes;
use crate::model::mj_text::MjTextAttributes;
use crate::model::mj_wrapper::MjWrapperAttributes;
use crate::model::utils::attr_text;
use crate::model::utils::build_indentation;
use crate::model::utils::indent_text;
use crate::model::utils::render_keyword_attribute;
use crate::model::utils::render_required_attribute;
use crate::model::utils::AttributeValue;
use crate::model::utils::Css;
use crate::model::utils::SizePx;
use crate::model::utils::Url;
use crate::model::{
    node_text, push_close_tag, push_open_tag, push_tag_end, push_void_end, text_line,
};

verus! {

/// The document head: each setting independently optional, rendered in
/// the fixed order of the fields.
pub struct MjHead {
    pub mj_attributes: Option<MjAttributes>,
    pub mj_breakpoint: Option<SizePx>,
    pub mj_font: Vec<MjFont>,
    pub mj_html_attributes: Vec<MjSelector>,
    pub mj_preview: Option<String>,
    pub mj_style: Option<MjStyle>,
    pub mj_title: Option<String>,
}

/// The `mj-attributes` block: default attribute sets, one entry per
/// line.
#[derive(Default)]
pub struct MjAttributes {
    pub content: Vec<MjAttribute>,
}

/// A named class preset: a name and an arbitrary ordered key/value map.
pub struct MjClass {
    pub name: String,
    pub attributes: Vec<(String, String)>,
}

/// One entry of the `mj-attributes` block: defaults for every tag, a
/// named class preset, or the typed attribute set of one element kind.
pub enum MjAttribute {
    MjAll(Vec<(String, String)>),
    MjClass(MjClass),
    MjAccordion(MjAccordionAttributes),
    MjAccordionElement(MjAccordionElementAttributes),
    MjAccordionElementTitle(MjAccordionElementTitleAttributes),
    MjAccordionElementText(MjAccordionElementTextAttributes),
    MjButton(MjButtonAttributes),
    MjCarousel(MjCarouselAttributes),
    MjCarouselImage(MjCarouselImageAttributes),
    MjColumn(MjColumnAttributes),
    MjDivider(MjDividerAttributes),
    MjGroup(MjGroupAttributes),
    MjHero(MjHeroAttributes),
    MjImage(MjImageAttributes),
    MjNavbar(MjNavbarAttributes),
    MjNavbarLink(MjNavbarLinkAttributes),
    MjSection(MjSectionAttributes),
    MjSocial(MjSocialAttributes),
    MjSocialElement(MjSocialElementAttributes),
    MjSpacer(MjSpacerAttributes),
    MjTable(MjTableAttributes),
    MjText(MjTextAttributes),
    MjWrapper(MjWrapperAttributes),
}

/// A font declaration.
pub struct MjFont {
    pub name: String,
    pub href: Url,
}

/// HTML attributes to inject into every node a selector path matches.
pub struct MjSelector {
    pub path: String,
    pub mj_html_attributes: Vec<MjHtmlAttribute>,
}

/// One injected HTML attribute.
pub struct MjHtmlAttribute {
    pub name: String,
    pub value: String,
}

/// A CSS block, optionally marked for inlining.
pub struct MjStyle {
    pub inline: bool,
    pub content: Css,
}

/// The rendered text of an ordered key/value map: one attribute per
/// pair, in sequence order.
pub open spec fn kv_pairs_text(s: Seq<(String, String)>) -> Seq<char>
    decreases s,
{
    if s.len() == 0 {
        Seq::empty()
    } else {
        kv_pairs_text(s.drop_last()) + attr_text(s.last().0@, s.last().1@)
    }
}

/// Renders an ordered key/value map, one attribute per pair.
#[verifier::loop_isolation(false)]
fn render_kv_pairs(out: &mut String, items: &Vec<(String, String)>)
    ensures
        final(out)@ == old(out)@ + kv_pairs_text(items@),
{
    let mut i: usize = 0;
    while i < items.len()
        invariant
            i <= items.len(),
            out@ == old(out)@ + kv_pairs_text(items@.take(i as int)),
        decreases items.len() - i,
    {
        let (k, v) = &items[i];
        render_keyword_attribute(out, k.as_str(), v.as_str());
        proof {
            broadcast use crate::model::utils::lemma_seq_add_assoc;

            assert(items@.take(i + 1 as int).drop_last() =~= items@.take(i as int));
            assert(items@.take(i + 1 as int).last() == items@[i as int]);
            assert(out@ == old(out)@ + kv_pairs_text(items@.take(i + 1 as int)));
        }
        i = i + 1;
    }
    proof {
        assert(items@.take(items.len() as int) =~= items@);
    }
}

/// The rendered line of a default-for-all-tags entry.
#[verifier::opaque]
pub open spec fn mj_all_text(depth: nat, attributes: Seq<(String, String)>) -> Seq<char> {
    node_text(depth, "mj-all"@, kv_pairs_text(attributes), false, Seq::empty())
}

/// Renders a default-for-all-tags entry as one self-closing line.
pub fn render_mj_all(out: &mut String, depth: usize, attributes: &Vec<(String, String)>)
    ensures
        final(out)@ == old(out)@ + mj_all_text(depth as nat, attributes@),
{
    push_open_tag(out, depth, "mj-all");
    render_kv_pairs(out, attributes);
    push_void_end(out);
    proof {
        broadcast use crate::model::utils::lemma_seq_add_assoc;

        reveal(mj_all_text);
        assert(out@ == old(out)@ + mj_all_text(depth as nat, attributes@));
    }
}

/// The rendered line of a named class preset.
#[verifier::opaque]
pub open spec fn mj_class_text(depth: nat, class: MjClass) -> Seq<char> {
    node_text(
        depth,
        "mj-all"@,
        attr_text("name"@, class.name@) + kv_pairs_text(class.attributes@),
        false,
        Seq::empty(),
    )
}

/// Renders a named class preset as one self-closing line.
pub fn render_mj_class(out: &mut String, depth: usize, class: &MjClass)
    ensures
        final(out)@ == old(out)@ + mj_class_text(depth as nat, *class),
{
    push_open_tag(out, depth, "mj-all");
    render_required_attribute(out, "name", &class.name);
    render_kv_pairs(out, &class.attributes);
    push_void_end(out);
    proof {
        broadcast use crate::model::utils::lemma_seq_add_assoc;

        reveal(mj_class_text);
        assert(out@ == old(out)@ + mj_class_text(depth as nat, *class));
    }
}

impl MjAttribute {
    /// The rendered line of this entry: a single self-closing tag.
    #[verifier::opaque]
    pub open spec fn text(self, depth: nat) -> Seq<char> {
        match self {
            MjAttribute::MjAll(m) => mj_all_text(depth, m@),
            MjAttribute::MjClass(c) => mj_class_text(depth, c),
            MjAttribute::MjAccordion(a) => node_text(
                depth,
                "mj-accordion"@,
                a.text(),
                false,
                Seq::empty(),
            ),
            MjAttribute::MjAccordionElement(a) => node_text(
                depth,
                "mj-accordion-element"@,
                a.text(),
                false,
                Seq::empty(),
            ),
            MjAttribute::MjAccordionElementTitle(a) => node_text(
                depth,
                "mj-accordion-title"@,
                a.text(),
                false,
                Seq::empty(),
            ),
            MjAttribute::MjAccordionElementText(a) => node_text(
                depth,
                "mj-accordion-text"@,
                a.text(),
                false,
                Seq::empty(),
            ),
            MjAttribute::MjButton(a) => node_text(depth, "mj-button"@, a.text(), false, Seq::empty()),
            MjAttribute::MjCarousel(a) => node_text(
                depth,
                "mj-carousel"@,
                a.text(),
                false,
                Seq::empty(),
            ),
            MjAttribute::MjCarouselImage(a) => node_text(
                depth,
                "mj-carousel-image"@,
                a.text(),
                false,
                Seq::empty(),
            ),
            MjAttribute::MjColumn(a) => node_text(depth, "mj-column"@, a.text(), false, Seq::empty()),
            MjAttribute::MjDivider(a) => node_text(
                depth,
                "mj-divider"@,
                a.text(),
                false,
                Seq::empty(),
            ),
            MjAttribute::MjGroup(a) => node_text(depth, "mj-group"@, a.text(), false, Seq::empty()),
            MjAttribute::MjHero(a) => node_text(depth, "mj-hero"@, a.text(), false, Seq::empty()),
            MjAttribute::MjImage(a) => node_text(depth, "mj-image"@, a.text(), false, Seq::empty()),
            MjAttribute::MjNavbar(a) => node_text(depth, "mj-navbar"@, a.text(), false, Seq::empty()),
            MjAttribute::MjNavbarLink(a) => node_text(
                depth,
                "mj-navbar-link"@,
                a.text(),
                false,
                Seq::empty(),
            ),
            MjAttribute::MjSection(a) => node_text(
                depth,
                "mj-section"@,
                a.text(),
                false,
                Seq::empty(),
            ),
            MjAttribute::MjSocial(a) => node_text(depth, "mj-social"@, a.text(), false, Seq::empty()),
            MjAttribute::MjSocialElement(a) => node_text(
                depth,
                "mj-social-element"@,
                a.text(),
                false,
                Seq::empty(),
            ),
            MjAttribute::MjSpacer(a) => node_text(depth, "mj-spacer"@, a.text(), false, Seq::empty()),
            MjAttribute::MjTable(a) => node_text(depth, "mj-table"@, a.text(), false, Seq::empty()),
            MjAttribute::MjText(a) => node_text(depth, "mj-text"@, a.text(), false, Seq::empty()),
            MjAttribute::MjWrapper(a) => node_text(
                depth,
                "mj-wrapper"@,
                a.text(),
                false,
                Seq::empty(),
            ),
        }
    }

    /// Writes this entry as one self-closing line at the given depth.
    #[verifier::rlimit(60)]
    pub fn render(&self, out: &mut String, depth: usize)
        ensures
            final(out)@ == old(out)@ + self.text(depth as nat),
    {
        proof {
            reveal(MjAttribute::text);
        }
        match self {
            MjAttribute::MjAll(m) => render_mj_all(out, depth, m),
            MjAttribute::MjClass(c) => render_mj_class(out, depth, c),
            MjAttribute::MjAccordion(a) => {
                push_open_tag(out, depth, "mj-accordion");
                a.render(out);
                push_void_end(out);
                proof {
                    broadcast use crate::model::utils::lemma_seq_add_assoc;

                    assert(out@ == old(out)@ + self.text(depth as nat));
                }
            }
            MjAttribute::MjAccordionElement(a) => {
                push_open_tag(out, depth, "mj-accordion-element");
                a.render(out);
                push_void_end(out);
                proof {
                    broadcast use crate::model::utils::lemma_seq_add_assoc;

                    assert(out@ == old(out)@ + self.text(depth as nat));
                }
            }
            MjAttribute::MjAccordionElementTitle(a) => {
                push_open_tag(out, depth, "mj-accordion-title");
                a.render(out);
                push_void_end(out);
                proof {
                    broadcast use crate::model::utils::lemma_seq_add_assoc;

                    assert(out@ == old(out)@ + self.text(depth as nat));
                }
            }
            MjAttribute::MjAccordionElementText(a) => {
                push_open_tag(out, depth, "mj-accordion-text");
                a.render(out);
                push_void_end(out);
                proof {
                    broadcast use crate::model::utils::lemma_seq_add_assoc;

                    assert(out@ == old(out)@ + self.text(depth as nat));
                }
            }
            MjAttribute::MjButton(a) => {
                push_open_tag(out, depth, "mj-button");
                a.render(out);
                push_void_end(out);
                proof {
                    broadcast use crate::model::utils::lemma_seq_add_assoc;

                    assert(out@ == old(out)@ + self.text(depth as nat));
                }
            }
            MjAttribute::MjCarousel(a) => {
                push_open_tag(out, depth, "mj-carousel");
                a.render(out);
                push_void_end(out);
                proof {
                    broadcast use crate::model::utils::lemma_seq_add_assoc;

                    assert(out@ == old(out)@ + self.text(depth as nat));
                }
            }
            MjAttribute::MjCarouselImage(a) => {
                push_open_tag(out, depth, "mj-carousel-image");
                a.render(out);
                push_void_end(out);
                proof {
                    broadcast use crate::model::utils::lemma_seq_add_assoc;

                    assert(out@ == old(out)@ + self.text(depth as nat));
                }
            }
            MjAttribute::MjColumn(a) => {
                push_open_tag(out, depth, "mj-column");
                a.render(out);
                push_void_end(out);
                proof {
                    broadcast use crate::model::utils::lemma_seq_add_assoc;

                    assert(out@ == old(out)@ + self.text(depth as nat));
                }
            }
            MjAttribute::MjDivider(a) => {
                push_open_tag(out, depth, "mj-divider");
                a.render(out);
                push_void_end(out);
                proof {
                    broadcast use crate::model::utils::lemma_seq_add_assoc;

                    assert(out@ == old(out)@ + self.text(depth as nat));
                }
            }
            MjAttribute::MjGroup(a) => {
                push_open_tag(out, depth, "mj-group");
                a.render(out);
                push_void_end(out);
                proof {
                    broadcast use crate::model::utils::lemma_seq_add_assoc;

                    assert(out@ == old(out)@ + self.text(depth as nat));
                }
            }
            MjAttribute::MjHero(a) => {
                push_open_tag(out, depth, "mj-hero");
                a.render(out);
                push_void_end(out);
                proof {
                    broadcast use crate::model::utils::lemma_seq_add_assoc;

                    assert(out@ == old(out)@ + self.text(depth as nat));
                }
            }
            MjAttribute::MjImage(a) => {
                push_open_tag(out, depth, "mj-image");
                a.render(out);
                push_void_end(out);
                proof {
                    broadcast use crate::model::utils::lemma_seq_add_assoc;

                    assert(out@ == old(out)@ + self.text(depth as nat));
                }
            }
            MjAttribute::MjNavbar(a) => {
                push_open_tag(out, depth, "mj-navbar");
                a.render(out);
                push_void_end(out);
                proof {
                    broadcast use crate::model::utils::lemma_seq_add_assoc;

                    assert(out@ == old(out)@ + self.text(depth as nat));
                }
            }
            MjAttribute::MjNavbarLink(a) => {
                push_open_tag(out, depth, "mj-navbar-link");
                a.render(out);
                push_void_end(out);
                proof {
                    broadcast use crate::model::utils::lemma_seq_add_assoc;

                    assert(out@ == old(out)@ + self.text(depth as nat));
                }
            }
            MjAttribute::MjSection(a) => {
                push_open_tag(out, depth, "mj-section");
                a.render(out);
                push_void_end(out);
                proof {
                    broadcast use crate::model::utils::lemma_seq_add_assoc;

                    assert(out@ == old(out)@ + self.text(depth as nat));
                }
            }
            MjAttribute::MjSocial(a) => {
                push_open_tag(out, depth, "mj-social");
                a.render(out);
                push_void_end(out);
                proof {
                    broadcast use crate::model::utils::lemma_seq_add_assoc;

                    assert(out@ == old(out)@ + self.text(depth as nat));
                }
            }
            MjAttribute::MjSocialElement(a) => {
                push_open_tag(out, depth, "mj-social-element");
                a.render(out);
                push_void_end(out);
                proof {
                    broadcast use crate::model::utils::lemma_seq_add_assoc;

                    assert(out@ == old(out)@ + self.text(depth as nat));
                }
            }
            MjAttribute::MjSpacer(a) => {
                push_open_tag(out, depth, "mj-spacer");
                a.render(out);
                push_void_end(out);
                proof {
                    broadcast use crate::model::utils::lemma_seq_add_assoc;

                    assert(out@ == old(out)@ + self.text(depth as nat));
                }
            }
            MjAttribute::MjTable(a) => {
                push_open_tag(out, depth, "mj-table");
                a.render(out);
                push_void_end(out);
                proof {
                    broadcast use crate::model::utils::lemma_seq_add_assoc;

                    assert(out@ == old(out)@ + self.text(depth as nat));
                }
            }
            MjAttribute::MjText(a) => {
                push_open_tag(out, depth, "mj-text");
                a.render(out);
                push_void_end(out);
                proof {
                    broadcast use crate::model::utils::lemma_seq_add_assoc;

                    assert(out@ == old(out)@ + self.text(depth as nat));
                }
            }
            MjAttribute::MjWrapper(a) => {
                push_open_tag(out, depth, "mj-wrapper");
                a.render(out);
                push_void_end(out);
                proof {
                    broadcast use crate::model::utils::lemma_seq_add_assoc;

                    assert(out@ == old(out)@ + self.text(depth as nat));
                }
            }
        }
    }
}

/// The rendered lines of a run of attribute entries, in order.
pub open spec fn mj_attribute_children_text(s: Seq<MjAttribute>, depth: nat) -> Seq<char>
    decreases s,
{
    if s.len() == 0 {
        Seq::empty()
    } else {
        mj_attribute_children_text(s.drop_last(), depth) + s.last().text(depth)
    }
}

impl MjAttributes {
    /// The inner payload: the entries, one line each at the given depth.
    #[verifier::opaque]
    pub open spec fn content_text(self, depth: nat) -> Seq<char> {
        mj_attribute_children_text(self.content@, depth)
    }

    /// The whole rendered text of this block at the given depth.
    #[verifier::opaque]
    pub open spec fn text(self, depth: nat) -> Seq<char> {
        node_text(depth, "mj-attributes"@, Seq::empty(), true, self.content_text(depth + 1))
    }

    /// How many nesting levels this block renders, itself included.
    pub open spec fn height(self) -> nat {
        2
    }

    pub fn name(&self) -> (r: &'static str)
        ensures
            r@ == "mj-attributes"@,
    {
        "mj-attributes"
    }

    pub fn has_content(&self) -> (r: bool)
        ensures
            r,
    {
        true
    }

    /// Writes the entries only, not the enclosing tags.
    #[verifier::loop_isolation(false)]
    pub fn render_content(&self, out: &mut String, depth: usize)
        ensures
            final(out)@ == old(out)@ + self.content_text(depth as nat),
    {
        let mut i: usize = 0;
        while i < self.content.len()
            invariant
                i <= self.content.len(),
                out@ == old(out)@ + mj_attribute_children_text(
                    self.content@.take(i as int),
                    depth as nat,
                ),
            decreases self.content.len() - i,
        {
            self.content[i].render(out, depth);
            proof {
                broadcast use crate::model::utils::lemma_seq_add_assoc;

                assert(self.content@.take(i + 1 as int).drop_last() =~= self.content@.take(
                    i as int,
                ));
                assert(self.content@.take(i + 1 as int).last() == self.content@[i as int]);
                assert(out@ == old(out)@ + mj_attribute_children_text(
                    self.content@.take(i + 1 as int),
                    depth as nat,
                ));
            }
            i = i + 1;
        }
        proof {
            reveal(MjAttributes::content_text);
            assert(self.content@.take(self.content.len() as int) =~= self.content@);
        }
    }

    /// Writes this block and its entries at the given depth.
    pub fn render(&self, out: &mut String, depth: usize)
        requires
            depth + self.height() <= usize::MAX,
        ensures
            final(out)@ == old(out)@ + self.text(depth as nat),
    {
        push_open_tag(out, depth, "mj-attributes");
        push_tag_end(out);
        self.render_content(out, depth + 1);
        push_close_tag(out, depth, "mj-attributes");
        proof {
            broadcast use crate::model::utils::lemma_seq_add_assoc;

            reveal(MjAttributes::text);
            assert(out@ == old(out)@ + self.text(depth as nat));
        }
    }
}

impl MjFont {
    /// The rendered line of a font declaration.
    #[verifier::opaque]
    pub open spec fn text(self, depth: nat) -> Seq<char> {
        indent_text(depth) + "<"@ + "mj-font"@ + attr_text("name"@, self.name@) + seq![' ']
            + attr_text(
            "href"@,
            self.href@,
        ) + " />\n"@
    }

    /// Writes this font declaration as one line at the given depth.
    pub fn render(&self, out: &mut String, depth: usize)
        ensures
            final(out)@ == old(out)@ + self.text(depth as nat),
    {
        push_open_tag(out, depth, "mj-font");
        render_required_attribute(out, "name", &self.name);
        out.append(" ");
        render_required_attribute(out, "href", &self.href);
        out.append(" />\n");
        proof {
            broadcast use crate::model::utils::lemma_seq_add_assoc;

            reveal_strlit(" ");
            reveal(MjFont::text);
            assert(out@ == old(out)@ + self.text(depth as nat));
        }
    }
}

/// The rendered line of one injected HTML attribute.
#[verifier::opaque]
pub open spec fn html_attribute_line(a: MjHtmlAttribute, depth: nat) -> Seq<char> {
    indent_text(depth) + "<"@ + "mj-html-attribute"@ + attr_text("name"@, a.name@) + ">"@
        + a.value@ + "</mj-html-attribute>\n"@
}

/// Renders one injected HTML attribute as a single line.
fn render_html_attribute(out: &mut String, a: &MjHtmlAttribute, depth: usize)
    ensures
        final(out)@ == old(out)@ + html_attribute_line(*a, depth as nat),
{
    push_open_tag(out, depth, "mj-html-attribute");
    render_required_attribute(out, "name", &a.name);
    out.append(">");
    out.append(a.value.as_str());
    out.append("</mj-html-attribute>\n");
    proof {
        broadcast use crate::model::utils::lemma_seq_add_assoc;

        reveal(html_attribute_line);
        assert(out@ == old(out)@ + html_attribute_line(*a, depth as nat));
    }
}

/// The rendered lines of a run of injected HTML attributes.
pub open spec fn html_attribute_lines(s: Seq<MjHtmlAttribute>, depth: nat) -> Seq<char>
    decreases s,
{
    if s.len() == 0 {
        Seq::empty()
    } else {
        html_attribute_lines(s.drop_last(), depth) + html_attribute_line(s.last(), depth)
    }
}

/// Renders a run of injected HTML attributes, one line each.
#[verifier::loop_isolation(false)]
fn render_html_attribute_lines(out: &mut String, items: &Vec<MjHtmlAttribute>, depth: usize)
    ensures
        final(out)@ == old(out)@ + html_attribute_lines(items@, depth as nat),
{
    let mut i: usize = 0;
    while i < items.len()
        invariant
            i <= items.len(),
            out@ == old(out)@ + html_attribute_lines(items@.take(i as int), depth as nat),
        decreases items.len() - i,
    {
        render_html_attribute(out, &items[i], depth);
        proof {
            broadcast use crate::model::utils::lemma_seq_add_assoc;

            assert(items@.take(i + 1 as int).drop_last() =~= items@.take(i as int));
            assert(items@.take(i + 1 as int).last() == items@[i as int]);
            assert(out@ == old(out)@ + html_attribute_lines(
                items@.take(i + 1 as int),
                depth as nat,
            ));
        }
        i = i + 1;
    }
    proof {
        assert(items@.take(items.len() as int) =~= items@);
    }
}

impl MjSelector {
    /// The rendered text of this selector: nothing at all when it injects
    /// no attributes, otherwise an open tag with the path, one line per
    /// injected attribute, and a close tag.
    #[verifier::opaque]
    pub open spec fn text(self, depth: nat) -> Seq<char> {
        if self.mj_html_attributes.len() == 0 {
            Seq::empty()
        } else {
            indent_text(depth) + "<"@ + "mj-selector"@ + attr_text("path"@, self.path@) + ">\n"@
                + html_attribute_lines(self.mj_html_attributes@, depth + 1) + indent_text(depth)
                + "</"@ + "mj-selector"@ + ">\n"@
        }
    }

    /// Writes this selector and its injected attributes at the given
    /// depth.
    pub fn render(&self, out: &mut String, depth: usize)
        requires
            depth + 2 <= usize::MAX,
        ensures
            final(out)@ == old(out)@ + self.text(depth as nat),
    {
        if self.mj_html_attributes.len() == 0 {
            proof {
                reveal(MjSelector::text);
            }
            return ;
        }
        push_open_tag(out, depth, "mj-selector");
        render_required_attribute(out, "path", &self.path);
        push_tag_end(out);
        render_html_attribute_lines(out, &self.mj_html_attributes, depth + 1);
        push_close_tag(out, depth, "mj-selector");
        proof {
            broadcast use crate::model::utils::lemma_seq_add_assoc;

            reveal(MjSelector::text);
            assert(out@ == old(out)@ + self.text(depth as nat));
        }
    }
}

impl MjStyle {
    /// The rendered text of this style block: the open tag carries the
    /// inline marker when set, then the CSS one level deeper, then the
    /// close tag.
    #[verifier::opaque]
    pub open spec fn text(self, depth: nat) -> Seq<char> {
        indent_text(depth) + (if self.inline {
            "<mj-style inline=\"inline\">\n"@
        } else {
            "<mj-style >\n"@
        }) + text_line(depth + 1, self.content@) + indent_text(depth) + "</"@ + "mj-style"@
            + ">\n"@
    }

    /// Writes this style block at the given depth.
    pub fn render(&self, out: &mut String, depth: usize)
        requires
            depth + 2 <= usize::MAX,
        ensures
            final(out)@ == old(out)@ + self.text(depth as nat),
    {
        let ind = build_indentation(depth);
        out.append(ind.as_str());
        if self.inline {
            out.append("<mj-style inline=\"inline\">\n");
        } else {
            out.append("<mj-style >\n");
        }
        crate::model::push_text_line(out, depth + 1, self.content.as_str());
        push_close_tag(out, depth, "mj-style");
        proof {
            broadcast use crate::model::utils::lemma_seq_add_assoc;

            reveal(MjStyle::text);
            assert(out@ == old(out)@ + self.text(depth as nat));
        }
    }
}

/// The rendered lines of a run of font declarations.
pub open spec fn font_lines(s: Seq<MjFont>, depth: nat) -> Seq<char>
    decreases s,
{
    if s.len() == 0 {
        Seq::empty()
    } else {
        font_lines(s.drop_last(), depth) + s.last().text(depth)
    }
}

/// The rendered lines of a run of selectors.
pub open spec fn selector_lines(s: Seq<MjSelector>, depth: nat) -> Seq<char>
    decreases s,
{
    if s.len() == 0 {
        Seq::empty()
    } else {
        selector_lines(s.drop_last(), depth) + s.last().text(depth)
    }
}

/// Renders a run of font declarations, one line each.
#[verifier::loop_isolation(false)]
fn render_font_lines(out: &mut String, items: &Vec<MjFont>, depth: usize)
    ensures
        final(out)@ == old(out)@ + font_lines(items@, depth as nat),
{
    let mut i: usize = 0;
    while i < items.len()
        invariant
            i <= items.len(),
            out@ == old(out)@ + font_lines(items@.take(i as int), depth as nat),
        decreases items.len() - i,
    {
        items[i].render(out, depth);
        proof {
            broadcast use crate::model::utils::lemma_seq_add_assoc;

            assert(items@.take(i + 1 as int).drop_last() =~= items@.take(i as int));
            assert(items@.take(i + 1 as int).last() == items@[i as int]);
            assert(out@ == old(out)@ + font_lines(items@.take(i + 1 as int), depth as nat));
        }
        i = i + 1;
    }
    proof {
        assert(items@.take(items.len() as int) =~= items@);
    }
}

/// Renders a run of selectors, each with its injected attributes.
#[verifier::loop_isolation(false)]
fn render_selector_lines(out: &mut String, items: &Vec<MjSelector>, depth: usize)
    requires
        depth + 2 <= usize::MAX,
    ensures
        final(out)@ == old(out)@ + selector_lines(items@, depth as nat),
{
    let mut i: usize = 0;
    while i < items.len()
        invariant
            i <= items.len(),
            out@ == old(out)@ + selector_lines(items@.take(i as int), depth as nat),
        decreases items.len() - i,
    {
        items[i].render(out, depth);
        proof {
            broadcast use crate::model::utils::lemma_seq_add_assoc;

            assert(items@.take(i + 1 as int).drop_last() =~= items@.take(i as int));
            assert(items@.take(i + 1 as int).last() == items@[i as int]);
            assert(out@ == old(out)@ + selector_lines(items@.take(i + 1 as int), depth as nat));
        }
        i = i + 1;
    }
    proof {
        assert(items@.take(items.len() as int) =~= items@);
    }
}

impl MjHead {
    /// The rendered line of the breakpoint setting.
    #[verifier::opaque]
    pub open spec fn breakpoint_text(b: SizePx, depth: nat) -> Seq<char> {
        indent_text(depth) + "<"@ + "mj-breakpoint"@ + attr_text("width"@, b.value_text())
            + " />\n"@
    }

    /// The rendered `mj-html-attributes` block: absent when no selectors
    /// are declared.
    #[verifier::opaque]
    pub open spec fn html_attributes_text(self, depth: nat) -> Seq<char> {
        if self.mj_html_attributes.len() == 0 {
            Seq::empty()
        } else {
            indent_text(depth) + "<"@ + "mj-html-attributes"@ + ">\n"@ + selector_lines(
                self.mj_html_attributes@,
                depth + 1,
            ) + indent_text(depth) + "</"@ + "mj-html-attributes"@ + ">\n"@
        }
    }

    /// The first half of the head payload: attribute defaults,
    /// breakpoint, fonts and HTML-attribute injections.
    #[verifier::opaque]
    pub open spec fn head_meta_text(self, depth: nat) -> Seq<char> {
        (match self.mj_attributes {
            Option::Some(a) => a.text(depth),
            Option::None => Seq::empty(),
        }) + (match self.mj_breakpoint {
            Option::Some(b) => Self::breakpoint_text(b, depth),
            Option::None => Seq::empty(),
        }) + font_lines(self.mj_font@, depth) + self.html_attributes_text(depth)
    }

    /// The second half of the head payload: preview text, style block and
    /// title.
    #[verifier::opaque]
    pub open spec fn head_tail_text(self, depth: nat) -> Seq<char> {
        (match self.mj_preview {
            Option::Some(p) => indent_text(depth) + "<"@ + "mj-preview"@ + ">"@ + p@
                + "</mj-preview>\n"@,
            Option::None => Seq::empty(),
        }) + (match self.mj_style {
            Option::Some(s) => s.text(depth),
            Option::None => Seq::empty(),
        }) + (match self.mj_title {
            Option::Some(t) => indent_text(depth) + "<"@ + "mj-title"@ + ">"@ + t@
                + "</mj-title>\n"@,
            Option::None => Seq::empty(),
        })
    }

    /// The inner payload of the head, in its fixed order: attribute
    /// defaults, breakpoint, fonts, HTML-attribute injections, preview,
    /// style, title.
    #[verifier::opaque]
    pub open spec fn content_text(self, depth: nat) -> Seq<char> {
        self.head_meta_text(depth) + self.head_tail_text(depth)
    }

    /// The whole rendered text of the head at the given depth.
    #[verifier::opaque]
    pub open spec fn text(self, depth: nat) -> Seq<char> {
        node_text(depth, "mj-head"@, Seq::empty(), true, self.content_text(depth + 1))
    }

    /// How many nesting levels the head renders, itself included.
    pub open spec fn height(self) -> nat {
        4
    }

    pub fn name(&self) -> (r: &'static str)
        ensures
            r@ == "mj-head"@,
    {
        "mj-head"
    }

    pub fn has_content(&self) -> (r: bool)
        ensures
            r,
    {
        true
    }

    /// Writes the first half of the head settings.
    #[verifier::spinoff_prover]
    fn render_meta(&self, out: &mut String, depth: usize)
        requires
            depth + 3 <= usize::MAX,
        ensures
            final(out)@ == old(out)@ + self.head_meta_text(depth as nat),
    {
        let ghost t_attrs = match &self.mj_attributes {
            Option::Some(a) => a.text(depth as nat),
            Option::None => Seq::<char>::empty(),
        };
        let ghost t_break = match &self.mj_breakpoint {
            Option::Some(b) => Self::breakpoint_text(*b, depth as nat),
            Option::None => Seq::<char>::empty(),
        };
        let ghost t_fonts = font_lines(self.mj_font@, depth as nat);
        let ghost t_html = self.html_attributes_text(depth as nat);
        match &self.mj_attributes {
            Option::Some(a) => a.render(out, depth),
            Option::None => {}
        }
        proof {
            assert(out@ == old(out)@ + t_attrs);
        }
        match &self.mj_breakpoint {
            Option::Some(b) => {
                push_open_tag(out, depth, "mj-breakpoint");
                render_required_attribute(out, "width", b);
                out.append(" />\n");
            }
            Option::None => {}
        }
        proof {
            broadcast use crate::model::utils::lemma_seq_add_assoc;

            reveal(MjHead::breakpoint_text);
            assert(out@ == old(out)@ + t_attrs + t_break);
        }
        render_font_lines(out, &self.mj_font, depth);
        if self.mj_html_attributes.len() > 0 {
            push_open_tag(out, depth, "mj-html-attributes");
            push_tag_end(out);
            render_selector_lines(out, &self.mj_html_attributes, depth + 1);
            push_close_tag(out, depth, "mj-html-attributes");
        }
        proof {
            broadcast use crate::model::utils::lemma_seq_add_assoc;

            reveal(MjHead::html_attributes_text);
            reveal(MjHead::head_meta_text);
            assert(out@ == old(out)@ + self.head_meta_text(depth as nat));
        }
    }

    /// Writes the second half of the head settings.
    #[verifier::spinoff_prover]
    fn render_tail(&self, out: &mut String, depth: usize)
        requires
            depth + 2 <= usize::MAX,
        ensures
            final(out)@ == old(out)@ + self.head_tail_text(depth as nat),
    {
        let ghost t_prev = match &self.mj_preview {
            Option::Some(p) => indent_text(depth as nat) + "<"@ + "mj-preview"@ + ">"@ + p@
                + "</mj-preview>\n"@,
            Option::None => Seq::<char>::empty(),
        };
        let ghost t_style = match &self.mj_style {
            Option::Some(st) => st.text(depth as nat),
            Option::None => Seq::<char>::empty(),
        };
        match &self.mj_preview {
            Option::Some(p) => {
                push_open_tag(out, depth, "mj-preview");
                out.append(">");
                out.append(p.as_str());
                out.append("</mj-preview>\n");
            }
            Option::None => {}
        }
        proof {
            assert(out@ == old(out)@ + t_prev);
        }
        match &self.mj_style {
            Option::Some(st) => st.render(out, depth),
            Option::None => {}
        }
        proof {
            broadcast use crate::model::utils::lemma_seq_add_assoc;

            assert(out@ == old(out)@ + t_prev + t_style);
        }
        match &self.mj_title {
            Option::Some(t) => {
                push_open_tag(out, depth, "mj-title");
                out.append(">");
                out.append(t.as_str());
                out.append("</mj-title>\n");
            }
            Option::None => {}
        }
        proof {
            broadcast use crate::model::utils::lemma_seq_add_assoc;

            reveal(MjHead::head_tail_text);
            assert(out@ == old(out)@ + self.head_tail_text(depth as nat));
        }
    }

    /// Writes the head settings only, not the enclosing tags.
    pub fn render_content(&self, out: &mut String, depth: usize)
        requires
            depth + 3 <= usize::MAX,
        ensures
            final(out)@ == old(out)@ + self.content_text(depth as nat),
    {
        self.render_meta(out, depth);
        self.render_tail(out, depth);
        proof {
            broadcast use crate::model::utils::lemma_seq_add_assoc;

            reveal(MjHead::content_text);
            assert(out@ == old(out)@ + self.content_text(depth as nat));
        }
    }

    /// Writes the head and everything below it at the given depth.
    pub fn render(&self, out: &mut String, depth: usize)
        requires
            depth + self.height() <= usize::MAX,
        ensures
            final(out)@ == old(out)@ + self.text(depth as nat),
    {
        push_open_tag(out, depth, "mj-head");
        push_tag_end(out);
        self.render_content(out, depth + 1);
        push_close_tag(out, depth, "mj-head");
        proof {
            broadcast use crate::model::utils::lemma_seq_add_assoc;

            reveal(MjHead::text);
            assert(out@ == old(out)@ + self.text(depth as nat));
        }
    }
}

} // verus!
