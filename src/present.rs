//! The presentation abstraction: each resource knows its one-line text and its
//! depth in the tree, and is written as an indented `-> ` line to a sink.

use vstd::prelude::*;
use crate::text::{spaces, push_spaces};

verus! {

/// A sink for rendered lines, one call per line.
pub trait OutputWriter {
    fn write_line(&mut self, content: &str);
}

/// A sink that keeps everything written to it, each line followed by a newline.
pub struct BufferWriter {
    buffer: String,
}

impl View for BufferWriter {
    type V = Seq<char>;

    closed spec fn view(&self) -> Seq<char> {
        self.buffer@
    }
}

impl BufferWriter {
    /// An empty buffer.
    pub fn new() -> (r: Self)
        ensures
            r@ == Seq::<char>::empty(),
    {
        BufferWriter { buffer: String::new() }
    }

    /// Everything written so far.
    pub fn get_output(&self) -> (r: String)
        ensures
            r@ == self@,
    {
        self.buffer.clone()
    }
}

impl OutputWriter for BufferWriter {
    fn write_line(&mut self, content: &str)
        ensures
            final(self)@ == old(self)@ + content@ + "\n"@,
    {
        self.buffer.append(content);
        self.buffer.append("\n");
    }
}

/// The rendered line of a resource: its indentation, an arrow, then its text.
pub open spec fn line_text(indent: nat, content: Seq<char>) -> Seq<char> {
    spaces(indent) + "-> "@ + content
}

/// The rendered line of any presentable resource.
pub open spec fn rendered<P: Present>(p: P) -> Seq<char> {
    line_text(p.depth(), p.text())
}

/// A resource that can be shown as one line of the tree.
pub trait Present {
    /// The text of the resource's line, without indentation.
    spec fn text(&self) -> Seq<char>;

    /// How far the resource's line is indented.
    spec fn depth(&self) -> nat;

    fn content(&self) -> (r: String)
        ensures
            r@ == self.text(),
    ;

    fn indent(&self) -> (r: usize)
        ensures
            r as nat == self.depth(),
    ;

    /// The full line of the resource: indentation, an arrow, then its text.
    fn line(&self) -> (r: String)
        ensures
            r@ == line_text(self.depth(), self.text()),
    {
        let mut out = String::new();
        push_spaces(&mut out, self.indent());
        out.append("-> ");
        let c = self.content();
        out.append(c.as_str());
        out
    }

    /// Writes the resource's line to `writer`.
    fn present<W: OutputWriter>(&self, writer: &mut W) {
        let l = self.line();
        writer.write_line(l.as_str());
    }
}

/// Appends the line of `p` to `out`.
pub fn push_line<P: Present>(out: &mut Vec<String>, p: &P)
    ensures
        final(out).deep_view() == old(out).deep_view().push(rendered(*p)),
{
    let l = p.line();
    out.push(l);
    assert(out.deep_view() =~= old(out).deep_view().push(rendered(*p)));
}

} // verus!
