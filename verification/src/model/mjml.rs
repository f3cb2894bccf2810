//! The document root: an optional raw file-start block, an optional head,
//! and exactly one body, wrapped in the root tag.
use vstd::prelude::*;

use vstd::string::StringExecFns;

use crate::model::mj_body::MjBody;
use crate::model::mj_head::MjHead;
use crate::model::utils::attr_text;
use crate::model::utils::render_keyword_attribute;
use crate::model::utils::Html;
use crate::model::{
    node_text, push_close_tag, push_open_tag, push_tag_end, push_text_line, text_line,
};

verus! {

/// A whole document: raw prelude and head each present at most once, the
/// body mandatory.
pub struct Mjml {
    pub mj_raw_file_start: Option<MjRawFileStart>,
    pub mj_body: MjBody,
    pub mj_head: Option<MjHead>,
    pub attributes: MjmlAttributes,
}

/// Root-tag settings; carried in the model, not rendered.
#[derive(Default)]
pub struct MjmlAttributes {
    pub owa: Option<Owa>,
    pub lang: Option<String>,
    pub dit: Option<String>,
}

/// The Outlook-web-app rendering hint.
pub enum Owa {
    Desktop,
}

/// A raw block pinned to the start of the document, before the head.
pub struct MjRawFileStart {
    pub content: Html,
}

impl MjRawFileStart {
    /// The rendered text of this block at the given depth: a raw tag
    /// marked with its file-start position, the literal content one level
    /// deeper, and the close tag.
    pub open spec fn text(self, depth: nat) -> Seq<char> {
        node_text(
            depth,
            "mj-raw"@,
            attr_text("position"@, "file-start"@),
            true,
            text_line(depth + 1, self.content@),
        )
    }

    /// How many nesting levels this block renders, itself included.
    pub open spec fn height(self) -> nat {
        2
    }

    /// Writes this block and its content at the given depth.
    pub fn render(&self, out: &mut String, depth: usize)
        requires
            depth + self.height() <= usize::MAX,
        ensures
            final(out)@ == old(out)@ + self.text(depth as nat),
    {
        push_open_tag(out, depth, "mj-raw");
        render_keyword_attribute(out, "position", "file-start");
        push_tag_end(out);
        push_text_line(out, depth + 1, self.content.as_str());
        push_close_tag(out, depth, "mj-raw");
        proof {
            broadcast use crate::model::utils::lemma_seq_add_assoc;

            assert(out@ == old(out)@ + self.text(depth as nat));
        }
    }
}

impl Mjml {
    /// The whole rendered document: the root tag on its own unindented
    /// line, the optional raw prelude, the optional head and the body
    /// one level deep, and the root close tag.
    pub open spec fn text(self) -> Seq<char> {
        "<mjml>\n"@ + (match self.mj_raw_file_start {
            Option::Some(r) => r.text(1),
            Option::None => Seq::empty(),
        }) + (match self.mj_head {
            Option::Some(h) => h.text(1),
            Option::None => Seq::empty(),
        }) + self.mj_body.text(1) + "</mjml>\n"@
    }

    /// The one machine limit on rendering: the tree's nesting must leave
    /// the depth counter room to grow.
    pub open spec fn renderable(self) -> bool {
        1 + self.mj_body.height() <= usize::MAX
    }

    /// Writes the whole document into the given buffer.
    pub fn render(&self, out: &mut String)
        requires
            self.renderable(),
        ensures
            final(out)@ == old(out)@ + self.text(),
    {
        out.append("<mjml>\n");
        match &self.mj_raw_file_start {
            Option::Some(r) => r.render(out, 1),
            Option::None => {}
        }
        match &self.mj_head {
            Option::Some(h) => h.render(out, 1),
            Option::None => {}
        }
        self.mj_body.render(out, 1);
        out.append("</mjml>\n");
        proof {
            broadcast use crate::model::utils::lemma_seq_add_assoc;

            assert(out@ == old(out)@ + self.text());
        }
    }

    /// Law: rendering the same constructed tree twice yields
    /// byte-identical output. The render contract pins the output to a
    /// function of the tree alone, so any two outputs that meet it are
    /// equal.
    pub proof fn lemma_render_deterministic(self, first: Seq<char>, second: Seq<char>)
        requires
            first == self.text(),
            second == self.text(),
        ensures
            first == second,
    {
    }

    /// Renders the whole document into a fresh in-memory buffer and
    /// returns it; buffering first is what gives callers atomicity.
    pub fn render_to_string(self) -> (r: String)
        requires
            self.renderable(),
        ensures
            r@ == self.text(),
    {
        let mut out = String::new();
        self.render(&mut out);
        out
    }
}

} // verus!
