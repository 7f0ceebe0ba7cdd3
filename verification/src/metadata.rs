use vstd::prelude::*;

verus! {

/// Scroll model for the metadata view: a line offset into a variable-length
/// rendering. Stepping is saturating and unclamped above; the offset is
/// clamped against the content on every redraw by `reconcile`, because the
/// line count depends on which optional blocks are present that redraw.
pub struct MetadataScroll {
    pub offset: usize,
}

/// The offset after one downward step: one more, saturating at the top of
/// the machine range (no content clamp at step time).
pub open spec fn offset_after_down(o: usize) -> usize {
    if o < usize::MAX {
        (o + 1) as usize
    } else {
        o
    }
}

/// The offset after one upward step: one less, saturating at zero.
pub open spec fn offset_after_up(o: usize) -> usize {
    if o > 0 {
        (o - 1) as usize
    } else {
        0
    }
}

/// The offset once reconciled against `content_line_count` lines: clamped to
/// the content, so the view never scrolls past it.
pub open spec fn reconciled_offset(o: usize, content_line_count: usize) -> usize {
    if o < content_line_count {
        o
    } else {
        content_line_count
    }
}

impl MetadataScroll {
    /// A fresh model at the top of the content.
    pub fn new() -> (r: Self)
        ensures
            r.offset == 0,
    {
        MetadataScroll { offset: 0 }
    }

    /// Scroll one line down, saturating at the machine range; the content
    /// clamp happens at the next `reconcile`.
    pub fn scroll_down(&mut self)
        ensures
            final(self).offset == offset_after_down(old(self).offset),
    {
        if self.offset < usize::MAX {
            self.offset = self.offset + 1;
        }
    }

    /// Scroll one line up, saturating at zero.
    pub fn scroll_up(&mut self)
        ensures
            final(self).offset == offset_after_up(old(self).offset),
    {
        if self.offset > 0 {
            self.offset = self.offset - 1;
        }
    }

    /// Clamp the stored offset against the content assembled for this redraw
    /// and report the scrollbar pair (content length, position). Must run
    /// once per redraw, after the line list is assembled.
    pub fn reconcile(&mut self, content_line_count: usize) -> (r: (usize, usize))
        requires
            content_line_count < usize::MAX,
        ensures
            final(self).offset == reconciled_offset(old(self).offset, content_line_count),
            final(self).offset <= content_line_count,
            r.0 == content_line_count + 1,
            r.1 == final(self).offset,
    {
        if self.offset > content_line_count {
            self.offset = content_line_count;
        }
        (content_line_count + 1, self.offset)
    }
}

/// The metadata scroll clamps: whatever offset downward steps have piled up,
/// reconciling against `content_line_count` lines never leaves the offset
/// past the content, and an upward step from the top stays at the top.
pub proof fn lemma_metadata_scroll_clamp(o: usize, content_line_count: usize)
    ensures
        reconciled_offset(offset_after_down(o), content_line_count) <= content_line_count,
        reconciled_offset(o, content_line_count) <= content_line_count,
        offset_after_up(0) == 0,
{
}

} // verus!
