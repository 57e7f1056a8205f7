//! The scrolling item list that backs the console's command log. The list
//! itself is an append-only vector of strings; each frame the widget mirrors
//! its newest entries, newest first, onto the rows of a UI container. The
//! decisions — how many rows fit the container, which rows are rewritten in
//! place, which are newly spawned and which stale rows are despawned — stand
//! here as verified functions; the engine only carries them out.

use vstd::prelude::*;

verus! {

/// The fixed height of one list row, in pixels.
pub const ITEM_HEIGHT_PX: usize = 20;

/// An ordered log of submitted strings, append-only.
pub struct ItemList {
    pub items: Vec<String>,
}

impl View for ItemList {
    type V = Seq<Seq<char>>;

    open spec fn view(&self) -> Seq<Seq<char>> {
        self.items@.map_values(|s: String| s@)
    }
}

/// One step of bringing the UI rows in line with the list: either an
/// existing row is rewritten in place, or a new row is spawned at the end of
/// the container.
pub enum RowOp {
    Reuse { child: usize, text: String },
    Spawn { text: String },
}

impl RowOp {
    pub open spec fn spec_text(self) -> Seq<char> {
        match self {
            RowOp::Reuse { child: _, text } => text@,
            RowOp::Spawn { text } => text@,
        }
    }
}

/// What the row at position `i` of a sync plan must be: it shows the
/// `i`-th newest item, reusing the container's existing child `i` when there
/// is one and spawning a fresh row otherwise.
pub open spec fn spec_plan_row(items: Seq<Seq<char>>, children_len: int, i: int, op: RowOp) -> bool {
    match op {
        RowOp::Reuse { child, text } => i < children_len && child == i && text@ == items[items.len()
            - 1 - i],
        RowOp::Spawn { text } => i >= children_len && text@ == items[items.len() - 1 - i],
    }
}

/// How many whole rows fit a container of the given height.
pub fn max_visible_items(container_height_px: usize) -> (n: usize)
    ensures
        n == container_height_px / ITEM_HEIGHT_PX,
{
    container_height_px / ITEM_HEIGHT_PX
}

impl ItemList {
    pub fn new() -> (r: ItemList)
        ensures
            r@ == Seq::<Seq<char>>::empty(),
    {
        ItemList { items: Vec::new() }
    }

    pub fn len(&self) -> (n: usize)
        ensures
            n == self@.len(),
    {
        self.items.len()
    }

    /// Appends one entry; nothing ever removes one.
    pub fn push(&mut self, item: String)
        ensures
            final(self)@ == old(self)@.push(item@),
    {
        self.items.push(item);
        proof {
            assert(self@ =~= old(self)@.push(item@));
        }
    }

    /// The plan that brings the container's rows in line with the list:
    /// one row per visible item, newest first, reusing the rows the
    /// container already has before spawning new ones.
    pub fn sync_plan(&self, max_visible: usize, children_len: usize) -> (plan: Vec<RowOp>)
        ensures
            plan@.len() == (if self@.len() < max_visible {
                self@.len() as int
            } else {
                max_visible as int
            }),
            forall|i: int|
                0 <= i < plan@.len() ==> spec_plan_row(
                    self@,
                    children_len as int,
                    i,
                    #[trigger] plan@[i],
                ),
    {
        let count: usize = if self.items.len() < max_visible {
            self.items.len()
        } else {
            max_visible
        };
        let mut plan: Vec<RowOp> = Vec::new();
        let mut i: usize = 0;
        while i < count
            invariant
                count <= self.items.len(),
                count == (if self@.len() < max_visible {
                    self@.len() as int
                } else {
                    max_visible as int
                }),
                i <= count,
                plan@.len() == i,
                forall|j: int|
                    0 <= j < plan@.len() ==> spec_plan_row(
                        self@,
                        children_len as int,
                        j,
                        #[trigger] plan@[j],
                    ),
            decreases count - i,
        {
            let text = self.items[self.items.len() - 1 - i].clone();
            let op = if i < children_len {
                RowOp::Reuse { child: i, text }
            } else {
                RowOp::Spawn { text }
            };
            plan.push(op);
            i = i + 1;
        }
        plan
    }

    /// The container rows that no longer back a visible item and are
    /// despawned: the display keeps one row per visible item — the window
    /// count or the whole list, whichever is smaller — and every child past
    /// those is surplus.
    pub fn stale_children(&self, max_visible: usize, children_len: usize) -> (stale: Vec<usize>)
        ensures
            ({
                let keep = if self@.len() < max_visible {
                    self@.len() as int
                } else {
                    max_visible as int
                };
                &&& stale@.len() == (if children_len > keep {
                    children_len - keep
                } else {
                    0int
                })
                &&& forall|i: int| 0 <= i < stale@.len() ==> #[trigger] stale@[i] == keep + i
            }),
    {
        let keep: usize = if self.items.len() < max_visible {
            self.items.len()
        } else {
            max_visible
        };
        let mut stale: Vec<usize> = Vec::new();
        let mut i: usize = keep;
        while i < children_len
            invariant
                keep <= i,
                i <= children_len || i == keep,
                stale@.len() == i - keep,
                forall|j: int| 0 <= j < stale@.len() ==> #[trigger] stale@[j] == keep + j,
            decreases children_len - i,
        {
            stale.push(i);
            i = i + 1;
        }
        stale
    }
}

} // verus!
