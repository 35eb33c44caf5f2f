//! Input fragments as the external segmenter hands them to the dispatcher.
//!
//! Segmentation of raw text is not this layer's job: callers (or the thin
//! host around the library) provide an ordered sequence of already classified
//! fragments, each either plain code or one meta-command with the rest of its
//! line as argument.

use vstd::prelude::*;

verus! {

/// One meta-command as produced by the segmenter: the command name (which
/// begins with the command marker `:`) and the remainder of the line, `None`
/// if nothing followed the name.
pub struct CommandFragment {
    pub name: String,
    pub argument: Option<String>,
}

/// One classified unit of parsed input.
pub enum Segment {
    /// Plain code, to be deferred and evaluated as one unit.
    Code(String),
    /// A meta-command, to be executed eagerly.
    Command(CommandFragment),
}

/// Mathematical image of a `Segment`.
pub enum SegV {
    Code(Seq<char>),
    Command(Seq<char>, Option<Seq<char>>),
}

impl View for CommandFragment {
    type V = SegV;

    open spec fn view(&self) -> SegV {
        SegV::Command(
            self.name@,
            match self.argument {
                Some(ref a) => Some(a@),
                None => None,
            },
        )
    }
}

impl View for Segment {
    type V = SegV;

    open spec fn view(&self) -> SegV {
        match self {
            Segment::Code(c) => SegV::Code(c@),
            Segment::Command(f) => f@,
        }
    }
}

impl DeepView for Segment {
    type V = SegV;

    open spec fn deep_view(&self) -> SegV {
        self.view()
    }
}

/// The code fragments of a segment sequence, in their relative order.
pub open spec fn code_fragments(segs: Seq<SegV>) -> Seq<Seq<char>>
    decreases segs.len(),
{
    if segs.len() == 0 {
        Seq::empty()
    } else {
        let rest = code_fragments(segs.drop_last());
        match segs.last() {
            SegV::Code(c) => rest.push(c),
            SegV::Command(_, _) => rest,
        }
    }
}

} // verus!
