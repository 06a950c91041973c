//! What an image on screen has ready in each window, and what has to be made
//! anew before it is drawn.

use vstd::prelude::*;
use crate::geometry::Rect;
use crate::util::Id;

verus! {

/// What an image has ready in one window.
#[derive(Clone, Copy, Debug, PartialEq, Eq, Structural)]
pub struct FixtureEntry {
    pub window: Id,
    /// Whether the window holds the image as a texture.
    pub has_texture: bool,
    /// Whether the mesh that the window holds is out of date.
    pub mesh_dirty: bool,
}

/// What has to be done in a window before the image can be drawn there.
#[derive(Clone, Copy, Debug, PartialEq, Eq, Structural)]
pub struct FixtureWork {
    /// The image has to be made a texture.
    pub upload_texture: bool,
    /// The mesh has to be built from the rectangles.
    pub rebuild_mesh: bool,
}

/// An image placed on screen: where it goes, which part of it is shown, and
/// what each window that drew it has ready.
pub struct ImageFixture {
    pub rect: Rect,
    pub source_rect: Rect,
    pub entries: Vec<FixtureEntry>,
}

/// The index of the entry for `window` among the first `n`, if there is one.
pub open spec fn entry_index(entries: Seq<FixtureEntry>, window: Id, n: nat) -> Option<int>
    decreases n,
{
    if n == 0 || n > entries.len() {
        None
    } else if entries[n - 1].window == window {
        Some(n - 1)
    } else {
        entry_index(entries, window, (n - 1) as nat)
    }
}

/// What the image has ready in `window`: nothing where the window has not
/// drawn it yet.
pub open spec fn ready_in(entries: Seq<FixtureEntry>, window: Id) -> FixtureEntry {
    match entry_index(entries, window, entries.len()) {
        Some(i) => entries[i],
        None => FixtureEntry { window, has_texture: false, mesh_dirty: true },
    }
}

/// An index that `entry_index` gives is that of an entry for the window, and
/// it gives one wherever there is such an entry.
proof fn lemma_entry_index(entries: Seq<FixtureEntry>, window: Id, n: nat)
    requires
        n <= entries.len(),
    ensures
        match entry_index(entries, window, n) {
            Some(i) => 0 <= i < n && entries[i].window == window,
            None => forall|j: int| 0 <= j < n ==> entries[j].window != window,
        },
    decreases n,
{
    if n > 0 && entries[n - 1].window != window {
        lemma_entry_index(entries, window, (n - 1) as nat);
    }
}

impl ImageFixture {
    /// Whether no window has two entries.
    pub open spec fn well_formed(&self) -> bool {
        forall|i: int, j: int|
            0 <= i < j < self.entries@.len() ==> self.entries@[i].window != self.entries@[j].window
    }

    /// An image that no window has drawn yet.
    pub fn new(rect: Rect, source_rect: Rect) -> (fixture: ImageFixture)
        ensures
            fixture.rect == rect,
            fixture.source_rect == source_rect,
            fixture.entries@.len() == 0,
            fixture.well_formed(),
    {
        ImageFixture { rect, source_rect, entries: Vec::new() }
    }

    pub fn rect(&self) -> (rect: Rect)
        ensures
            rect == self.rect,
    {
        self.rect
    }

    pub fn source_rect(&self) -> (rect: Rect)
        ensures
            rect == self.source_rect,
    {
        self.source_rect
    }

    /// Marks every window's entry: its texture as gone where `texture` is
    /// set, its mesh as out of date where `mesh` is set.
    fn invalidate(&mut self, texture: bool, mesh: bool)
        ensures
            final(self).rect == old(self).rect,
            final(self).source_rect == old(self).source_rect,
            final(self).entries@.len() == old(self).entries@.len(),
            forall|i: int|
                0 <= i < old(self).entries@.len() ==> (#[trigger] final(self).entries@[i])
                    == (FixtureEntry {
                    window: old(self).entries@[i].window,
                    has_texture: old(self).entries@[i].has_texture && !texture,
                    mesh_dirty: old(self).entries@[i].mesh_dirty || mesh,
                }),
    {
        let n: usize = self.entries.len();
        let mut i: usize = 0;
        while i < n
            invariant
                n == old(self).entries@.len(),
                self.entries@.len() == n,
                i <= n,
                self.rect == old(self).rect,
                self.source_rect == old(self).source_rect,
                forall|j: int|
                    0 <= j < i ==> (#[trigger] self.entries@[j]) == (FixtureEntry {
                        window: old(self).entries@[j].window,
                        has_texture: old(self).entries@[j].has_texture && !texture,
                        mesh_dirty: old(self).entries@[j].mesh_dirty || mesh,
                    }),
                forall|j: int| i <= j < n ==> self.entries@[j] == old(self).entries@[j],
            decreases n - i,
        {
            let entry: FixtureEntry = self.entries[i];
            self.entries.set(
                i,
                FixtureEntry {
                    window: entry.window,
                    has_texture: entry.has_texture && !texture,
                    mesh_dirty: entry.mesh_dirty || mesh,
                },
            );
            i = i + 1;
        }
    }

    /// Takes another image: no window holds it as a texture yet.
    pub fn set_image(&mut self)
        requires
            old(self).well_formed(),
        ensures
            final(self).well_formed(),
            final(self).rect == old(self).rect,
            final(self).source_rect == old(self).source_rect,
            final(self).entries@.len() == old(self).entries@.len(),
            forall|i: int|
                0 <= i < old(self).entries@.len() ==> (#[trigger] final(self).entries@[i])
                    == (FixtureEntry { has_texture: false, ..old(self).entries@[i] }),
    {
        self.invalidate(true, false);
    }

    /// Moves the image on screen. Where `rect` differs from the rectangle so
    /// far, every window's mesh is out of date; where it does not, nothing
    /// changes.
    pub fn set_rect(&mut self, rect: Rect)
        requires
            old(self).well_formed(),
        ensures
            final(self).well_formed(),
            final(self).rect == rect,
            final(self).source_rect == old(self).source_rect,
            final(self).entries@.len() == old(self).entries@.len(),
            forall|i: int|
                0 <= i < old(self).entries@.len() ==> (#[trigger] final(self).entries@[i])
                    == (FixtureEntry {
                    mesh_dirty: old(self).entries@[i].mesh_dirty || rect != old(self).rect,
                    ..old(self).entries@[i]
                }),
    {
        if rect != self.rect {
            self.rect = rect;
            self.invalidate(false, true);
        }
    }

    /// Shows another part of the image. Where `source_rect` differs from the
    /// rectangle so far, every window's mesh is out of date; where it does
    /// not, nothing changes.
    pub fn set_source_rect(&mut self, source_rect: Rect)
        requires
            old(self).well_formed(),
        ensures
            final(self).well_formed(),
            final(self).rect == old(self).rect,
            final(self).source_rect == source_rect,
            final(self).entries@.len() == old(self).entries@.len(),
            forall|i: int|
                0 <= i < old(self).entries@.len() ==> (#[trigger] final(self).entries@[i])
                    == (FixtureEntry {
                    mesh_dirty: old(self).entries@[i].mesh_dirty || source_rect != old(
                        self,
                    ).source_rect,
                    ..old(self).entries@[i]
                }),
    {
        if source_rect != self.source_rect {
            self.source_rect = source_rect;
            self.invalidate(false, true);
        }
    }

    /// The bookkeeping of drawing the image in `window`: says what has to be
    /// made anew there first, a texture where the window holds none and a
    /// mesh where the window's is out of date, and notes that the window has
    /// both ready from now on. A window that has not drawn the image before
    /// needs both. What other windows have ready stays as it is.
    pub fn draw(&mut self, window: Id) -> (work: FixtureWork)
        requires
            old(self).well_formed(),
        ensures
            final(self).well_formed(),
            final(self).rect == old(self).rect,
            final(self).source_rect == old(self).source_rect,
            work.upload_texture == !ready_in(old(self).entries@, window).has_texture,
            work.rebuild_mesh == ready_in(old(self).entries@, window).mesh_dirty,
            ready_in(final(self).entries@, window) == (FixtureEntry {
                window,
                has_texture: true,
                mesh_dirty: false,
            }),
            forall|other: Id|
                other != window ==> ready_in(final(self).entries@, other) == ready_in(
                    old(self).entries@,
                    other,
                ),
    {
        let ready = FixtureEntry { window, has_texture: true, mesh_dirty: false };
        let n: usize = self.entries.len();
        let mut i: usize = 0;
        while i < n
            invariant
                n == self.entries@.len(),
                i <= n,
                *self == *old(self),
                old(self).well_formed(),
                ready == (FixtureEntry { window, has_texture: true, mesh_dirty: false }),
                forall|j: int| 0 <= j < i ==> self.entries@[j].window != window,
            decreases n - i,
        {
            let entry: FixtureEntry = self.entries[i];
            if entry.window == window {
                self.entries.set(i, ready);
                proof {
                    let before = old(self).entries@;
                    let after = self.entries@;
                    assert(after == before.update(i as int, ready));
                    assert(before[i as int].window == window);
                    lemma_entry_index(before, window, before.len());
                    lemma_entry_index(after, window, after.len());
                    assert(after[i as int].window == window);
                    let found = entry_index(after, window, after.len()).unwrap();
                    if found < i {
                        assert(before[found].window != before[i as int].window);
                    } else if found > i {
                        assert(before[i as int].window != before[found].window);
                    }
                    assert forall|other: Id| other != window implies ready_in(after, other)
                        == ready_in(before, other) by {
                        lemma_same_elsewhere(before, after, other, before.len());
                    }
                }
                return FixtureWork {
                    upload_texture: !entry.has_texture,
                    rebuild_mesh: entry.mesh_dirty,
                };
            }
            i = i + 1;
        }
        self.entries.push(ready);
        proof {
            let before = old(self).entries@;
            let after = self.entries@;
            lemma_entry_index(before, window, before.len());
            assert forall|other: Id| other != window implies ready_in(after, other) == ready_in(
                before,
                other,
            ) by {
                lemma_same_elsewhere(before, after, other, before.len());
            }
        }
        FixtureWork { upload_texture: true, rebuild_mesh: true }
    }
}

/// Two lists that agree on the entries of `window` among the first `n` give
/// the same index for it there.
proof fn lemma_same_elsewhere(
    before: Seq<FixtureEntry>,
    after: Seq<FixtureEntry>,
    window: Id,
    n: nat,
)
    requires
        n <= before.len(),
        before.len() <= after.len(),
        forall|j: int|
            0 <= j < before.len() ==> (before[j].window == window || after[j].window == window)
                ==> before[j] == after[j],
        forall|j: int| before.len() <= j < after.len() ==> after[j].window != window,
    ensures
        entry_index(before, window, n) == entry_index(after, window, n),
        n == before.len() ==> ready_in(before, window) == ready_in(after, window),
    decreases n,
{
    if n > 0 {
        lemma_same_elsewhere(before, after, window, (n - 1) as nat);
    }
    if n == before.len() {
        lemma_skip_strangers(after, window, after.len(), before.len());
        lemma_entry_index(before, window, before.len());
    }
}

/// Entries of other windows at the end of a list do not change the index.
proof fn lemma_skip_strangers(entries: Seq<FixtureEntry>, window: Id, n: nat, from: nat)
    requires
        from <= n <= entries.len(),
        forall|j: int| from <= j < entries.len() ==> entries[j].window != window,
    ensures
        entry_index(entries, window, n) == entry_index(entries, window, from),
    decreases n,
{
    if n > from {
        lemma_skip_strangers(entries, window, (n - 1) as nat, from);
    }
}

} // verus!
