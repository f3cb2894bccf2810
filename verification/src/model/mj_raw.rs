//! The `mj-raw` element: untyped markup carried through as literal
//! text.
use vstd::prelude::*;

use crate::model::utils::Html;
use crate::model::{
    BaseComponent,
    MjBodyComponent,
    node_text,
    push_close_tag,
    push_open_tag,
    push_tag_end,
    push_text_line,
    text_line,
};

verus! {

/// A passthrough block: literal text content with no attributes.
pub struct MjRaw {
    pub content: Html,
}

impl MjRaw {
    /// The inner payload: one line of literal text at the given depth.
    pub open spec fn content_text(self, depth: nat) -> Seq<char> {
        text_line(depth, self.content@)
    }

    /// The whole rendered text of this node at the given depth.
    pub open spec fn text(self, depth: nat) -> Seq<char> {
        node_text(depth, "mj-raw"@, Seq::empty(), true, self.content_text(depth + 1))
    }

    /// How many nesting levels this node renders, itself included.
    pub open spec fn height(self) -> nat {
        2
    }

    pub fn name(&self) -> (r: &'static str)
        ensures
            r@ == "mj-raw"@,
    {
        "mj-raw"
    }

    pub fn has_content(&self) -> (r: bool)
        ensures
            r,
    {
        true
    }

    /// Writes the inner payload only, not the enclosing tags.
    pub fn render_content(&self, out: &mut String, depth: usize)
        ensures
            final(out)@ == old(out)@ + self.content_text(depth as nat),
    {
        push_text_line(out, depth, self.content.as_str());
    }

    /// Writes this node and everything below it at the given depth.
    pub fn render(&self, out: &mut String, depth: usize)
        requires
            depth + self.height() <= usize::MAX,
        ensures
            final(out)@ == old(out)@ + self.text(depth as nat),
    {
        push_open_tag(out, depth, "mj-raw");
        push_tag_end(out);
        self.render_content(out, depth + 1);
        push_close_tag(out, depth, "mj-raw");
        proof {
            assert(out@ =~= old(out)@ + self.text(depth as nat));
        }
    }
}


impl MjBodyComponent for MjRaw {
    open spec fn as_base(self) -> BaseComponent {
        BaseComponent::Raw(self)
    }

    fn to_base_component(self) -> (r: BaseComponent) {
        BaseComponent::Raw(self)
    }
}

} // verus!
