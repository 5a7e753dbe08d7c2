use vstd::prelude::*;

verus! {

/// The largest offset at which a list of `entry_count` entries still fills
/// a viewport of `viewport_height` rows: `max(0, entry_count - viewport_height)`.
pub open spec fn max_scroll(entry_count: nat, viewport_height: nat) -> nat {
    if entry_count > viewport_height {
        (entry_count - viewport_height) as nat
    } else {
        0
    }
}

/// The offset after one step up: one less, floored at zero.
pub open spec fn scrolled_up(offset: nat) -> nat {
    if offset > 0 {
        (offset - 1) as nat
    } else {
        0
    }
}

/// The offset after one step down: one more while below the largest offset.
pub open spec fn scrolled_down(offset: nat, entry_count: nat, viewport_height: nat) -> nat {
    if offset < max_scroll(entry_count, viewport_height) {
        offset + 1
    } else {
        offset
    }
}

/// The offset used for drawing: the stored one, clamped against the current
/// list and viewport.
pub open spec fn effective_offset(offset: nat, entry_count: nat, viewport_height: nat) -> nat {
    if offset < max_scroll(entry_count, viewport_height) {
        offset
    } else {
        max_scroll(entry_count, viewport_height)
    }
}

/// Applies a run of scroll steps (`true` down, `false` up) against a fixed
/// list and viewport.
pub open spec fn scrolled_by(
    offset: nat,
    steps: Seq<bool>,
    entry_count: nat,
    viewport_height: nat,
) -> nat
    decreases steps.len(),
{
    if steps.len() == 0 {
        offset
    } else {
        let next = if steps[0] {
            scrolled_down(offset, entry_count, viewport_height)
        } else {
            scrolled_up(offset)
        };
        scrolled_by(next, steps.drop_first(), entry_count, viewport_height)
    }
}

/// Computes `max(0, entry_count - viewport_height)`.
pub fn max_offset(entry_count: usize, viewport_height: usize) -> (r: usize)
    ensures
        r == max_scroll(entry_count as nat, viewport_height as nat),
{
    if entry_count > viewport_height {
        entry_count - viewport_height
    } else {
        0
    }
}

/// The vertical scroll offset into the entry list: the index of the first
/// entry shown.
pub struct ScrollState {
    pub vertical_scroll: usize,
}

impl ScrollState {
    /// A scroll state at the top of the list.
    pub fn new() -> (r: ScrollState)
        ensures
            r.vertical_scroll == 0,
    {
        ScrollState { vertical_scroll: 0 }
    }

    /// Moves one entry up, stopping at the top.
    pub fn scroll_up(&mut self)
        ensures
            final(self).vertical_scroll == scrolled_up(old(self).vertical_scroll as nat),
    {
        if self.vertical_scroll > 0 {
            self.vertical_scroll = self.vertical_scroll - 1;
        }
    }

    /// Moves one entry down, stopping where the last entry reaches the
    /// bottom of a viewport of `viewport_height` rows.
    pub fn scroll_down(&mut self, entry_count: usize, viewport_height: usize)
        ensures
            final(self).vertical_scroll == scrolled_down(
                old(self).vertical_scroll as nat,
                entry_count as nat,
                viewport_height as nat,
            ),
    {
        let max = max_offset(entry_count, viewport_height);
        if self.vertical_scroll < max {
            self.vertical_scroll = self.vertical_scroll + 1;
        }
    }

    /// The offset to draw from, clamped against the current list length and
    /// viewport height, which may have changed since the last scroll.
    pub fn effective(&self, entry_count: usize, viewport_height: usize) -> (r: usize)
        ensures
            r == effective_offset(
                self.vertical_scroll as nat,
                entry_count as nat,
                viewport_height as nat,
            ),
    {
        let max = max_offset(entry_count, viewport_height);
        if self.vertical_scroll < max {
            self.vertical_scroll
        } else {
            max
        }
    }
}

/// Whatever the stored offset, the offset used for drawing lies in
/// `[0, max(0, entry_count - viewport_height)]`; and a run of scroll steps
/// that starts within that range stays within it.
pub proof fn lemma_scroll_stays_in_range(
    offset: nat,
    steps: Seq<bool>,
    entry_count: nat,
    viewport_height: nat,
)
    ensures
        effective_offset(offset, entry_count, viewport_height) <= max_scroll(
            entry_count,
            viewport_height,
        ),
        effective_offset(scrolled_by(offset, steps, entry_count, viewport_height), entry_count, viewport_height)
            <= max_scroll(entry_count, viewport_height),
        offset <= max_scroll(entry_count, viewport_height) ==> scrolled_by(
            offset,
            steps,
            entry_count,
            viewport_height,
        ) <= max_scroll(entry_count, viewport_height),
    decreases steps.len(),
{
    if steps.len() > 0 {
        let next = if steps[0] {
            scrolled_down(offset, entry_count, viewport_height)
        } else {
            scrolled_up(offset)
        };
        lemma_scroll_stays_in_range(next, steps.drop_first(), entry_count, viewport_height);
    }
}

} // verus!
