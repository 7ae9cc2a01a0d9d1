//! The state behind the protocol by which the shell attaches surfaces of its own to windows.

use crate::seqs;
use crate::seqs::without;
use vstd::prelude::*;

verus! {

/// Where a surface is attached to a window, and how large it is.
#[derive(Clone, Copy, Debug, PartialEq, Eq, Structural)]
pub struct AttachmentInner {
    /// The window; `None` while the surface is attached to none.
    pub window_id: Option<u32>,
    pub offset_x: i32,
    pub offset_y: i32,
    pub width: i32,
    pub height: i32,
    pub surface: Option<u64>,
}

impl Default for AttachmentInner {
    /// Attached to no window.
    fn default() -> (r: Self)
        ensures
            r == (AttachmentInner {
                window_id: None,
                offset_x: 0,
                offset_y: 0,
                width: 0,
                height: 0,
                surface: None,
            }),
    {
        AttachmentInner {
            window_id: None,
            offset_x: 0,
            offset_y: 0,
            width: 0,
            height: 0,
            surface: None,
        }
    }
}

/// An attachment.
#[derive(Clone, Copy, Debug, PartialEq, Eq, Structural)]
pub struct Attachment {
    pub id: u64,
    pub inner: AttachmentInner,
}

/// That an attachment belongs to a window.
#[derive(Clone, Copy, Debug, PartialEq, Eq, Structural)]
pub struct Binding {
    pub window_id: u32,
    pub attachment: u64,
}

/// Where a surface is placed on a window, and how large it is.
#[derive(Clone, Copy, Debug, PartialEq, Eq, Structural)]
pub struct Placement {
    pub offset_x: i32,
    pub offset_y: i32,
    pub width: i32,
    pub height: i32,
}

/// A surface that is attached to a window.
#[derive(Clone, Copy, Debug, PartialEq, Eq, Structural)]
pub struct AttachmentSnapshot {
    pub window_id: u32,
    pub surface: u64,
    pub offset_x: i32,
    pub offset_y: i32,
    pub width: i32,
    pub height: i32,
}

impl AttachmentInner {
    /// The same surface at another place.
    pub open spec fn placed(self, at: Placement) -> Self {
        AttachmentInner {
            offset_x: at.offset_x,
            offset_y: at.offset_y,
            width: at.width,
            height: at.height,
            ..self
        }
    }
}

/// The first attachment with the given number.
pub open spec fn position(attachments: Seq<Attachment>, id: u64) -> Option<int>
    decreases attachments.len(),
{
    if attachments.len() == 0 {
        None
    } else if attachments[0].id == id {
        Some(0)
    } else {
        match position(attachments.skip(1), id) {
            Some(i) => Some(i + 1),
            None => None,
        }
    }
}

/// The defining property of `position`.
proof fn lemma_position(attachments: Seq<Attachment>, id: u64)
    ensures
        match position(attachments, id) {
            Some(i) => 0 <= i < attachments.len() && attachments[i].id == id,
            None => forall|i: int|
                0 <= i < attachments.len() ==> (#[trigger] attachments[i]).id != id,
        },
    decreases attachments.len(),
{
    if attachments.len() > 0 && attachments[0].id != id {
        lemma_position(attachments.skip(1), id);
        if position(attachments.skip(1), id) is None {
            assert forall|i: int| 0 <= i < attachments.len() implies (
            #[trigger] attachments[i]).id != id by {
                if i > 0 {
                    assert(attachments.skip(1)[i - 1] == attachments[i]);
                }
            }
        }
    }
}

/// The bindings without those of an attachment to a window.
pub open spec fn unbound(bindings: Seq<Binding>, window_id: u32, id: u64) -> Seq<Binding> {
    bindings.filter(|b: Binding| b != (Binding { window_id, attachment: id }))
}

/// The bindings of a window.
pub open spec fn bound_to(bindings: Seq<Binding>, window_id: u32) -> Seq<Binding> {
    bindings.filter(|b: Binding| b.window_id == window_id)
}

/// The bindings of the other windows.
pub open spec fn bound_elsewhere(bindings: Seq<Binding>, window_id: u32) -> Seq<Binding> {
    bindings.filter(|b: Binding| b.window_id != window_id)
}

/// The attachments with that of one of them changed.
pub open spec fn with_inner(attachments: Seq<Attachment>, i: int, inner: AttachmentInner) -> Seq<
    Attachment,
> {
    attachments.update(i, Attachment { inner, ..attachments[i] })
}

/// An attachment belongs to the window that it names, and to no other.
pub open spec fn consistent(attachments: Seq<Attachment>, bindings: Seq<Binding>) -> bool {
    &&& forall|i: int, j: int|
        0 <= i < j < attachments.len() ==> (#[trigger] attachments[i]).id != (
        #[trigger] attachments[j]).id
    &&& forall|i: int|
        0 <= i < attachments.len() ==> match (#[trigger] attachments[i]).inner.window_id {
            Some(w) => bindings.contains(Binding { window_id: w, attachment: attachments[i].id }),
            None => true,
        }
    &&& forall|k: int|
        0 <= k < bindings.len() ==> match position(
            attachments,
            (#[trigger] bindings[k]).attachment,
        ) {
            Some(i) => attachments[i].inner.window_id == Some(bindings[k].window_id),
            None => false,
        }
}

/// The state behind the protocol.
#[derive(Debug, PartialEq, Eq)]
pub struct WindowAttachState {
    /// The shells that can attach surfaces.
    pub managers: Vec<u64>,
    pub attachments: Vec<Attachment>,
    /// The windows of the attachments, in the order in which they were attached.
    pub bindings: Vec<Binding>,
}

impl Default for WindowAttachState {
    /// No shell and no attachments.
    fn default() -> (r: Self)
        ensures
            r.managers@.len() == 0,
            r.attachments@.len() == 0,
            r.bindings@.len() == 0,
            r.valid(),
    {
        WindowAttachState { managers: Vec::new(), attachments: Vec::new(), bindings: Vec::new() }
    }
}

/// Removes the bindings of an attachment to a window.
fn drop_binding(bindings: &mut Vec<Binding>, window_id: u32, id: u64)
    ensures
        final(bindings)@ == unbound(old(bindings)@, window_id, id),
{
    let ghost before = bindings@;
    let ghost keep = |b: Binding| b != (Binding { window_id, attachment: id });
    let mut left: Vec<Binding> = Vec::new();
    let mut i: usize = 0;
    proof {
        reveal(Seq::filter);
        assert(left@ =~= before.take(0).filter(keep));
    }
    while i < bindings.len()
        invariant
            i <= bindings@.len(),
            before == bindings@,
            keep == (|b: Binding| b != (Binding { window_id, attachment: id })),
            left@ == before.take(i as int).filter(keep),
        decreases bindings@.len() - i,
    {
        proof {
            seqs::lemma_filter_take(before, keep, i as int);
        }
        let b: Binding = bindings[i];
        if b.window_id != window_id || b.attachment != id {
            left.push(b);
        }
        i += 1;
    }
    assert(before.take(i as int) =~= before);
    *bindings = left;
}

impl WindowAttachState {
    /// Whether every attachment belongs to the window that it names.
    pub open spec fn valid(self) -> bool {
        consistent(self.attachments@, self.bindings@)
    }

    /// Where an attachment is.
    fn find(&self, id: u64) -> (r: Option<usize>)
        ensures
            match r {
                Some(i) => position(self.attachments@, id) == Some(i as int) && i
                    < self.attachments@.len(),
                None => position(self.attachments@, id) is None,
            },
    {
        let mut i: usize = 0;
        assert(self.attachments@.skip(0) =~= self.attachments@);
        while i < self.attachments.len()
            invariant
                i <= self.attachments@.len(),
                match position(self.attachments@.skip(i as int), id) {
                    Some(j) => position(self.attachments@, id) == Some(i + j),
                    None => position(self.attachments@, id) is None,
                },
            decreases self.attachments@.len() - i,
        {
            assert(self.attachments@.skip(i as int).skip(1) =~= self.attachments@.skip(i + 1));
            if self.attachments[i].id == id {
                return Some(i);
            }
            i += 1;
        }
        None
    }

    /// A shell connects.
    pub fn bind_manager(&mut self, manager: u64)
        ensures
            final(self).managers@ == old(self).managers@.push(manager),
            final(self).attachments == old(self).attachments,
            final(self).bindings == old(self).bindings,
            old(self).valid() ==> final(self).valid(),
    {
        self.managers.push(manager);
    }

    /// A shell goes away.
    pub fn manager_destroyed(&mut self, manager: u64)
        ensures
            final(self).managers@ == old(self).managers@.filter(|n: u64| n != manager),
            final(self).attachments == old(self).attachments,
            final(self).bindings == old(self).bindings,
            old(self).valid() ==> final(self).valid(),
    {
        self.managers = without(&self.managers, manager);
    }

    /// Whether a shell can attach surfaces.
    pub fn has_attach_aware_shell(&self) -> (r: bool)
        ensures
            r == (self.managers@.len() > 0),
    {
        self.managers.len() > 0
    }

    /// A shell asks for an attachment of a surface, which is attached to no window at first.
    pub fn get_attachment(&mut self, id: u64, surface: u64)
        requires
            position(old(self).attachments@, id) is None,
        ensures
            final(self).managers == old(self).managers,
            final(self).bindings == old(self).bindings,
            final(self).attachments@ == old(self).attachments@.push(
                Attachment {
                    id,
                    inner: AttachmentInner {
                        window_id: None,
                        offset_x: 0,
                        offset_y: 0,
                        width: 0,
                        height: 0,
                        surface: Some(surface),
                    },
                },
            ),
            old(self).valid() ==> final(self).valid(),
    {
        let mut inner: AttachmentInner = AttachmentInner::default();
        inner.surface = Some(surface);
        let added: Attachment = Attachment { id, inner };
        self.attachments.push(added);
        proof {
            if old(self).valid() {
                lemma_added(old(self).attachments@, self.bindings@, added);
            }
        }
    }

    /// A shell attaches a surface to a window, which it leaves where it was attached to another.
    pub fn attach_to_window(&mut self, id: u64, window_id: u32, at: Placement)
        requires
            position(old(self).attachments@, id) is Some,
        ensures
            final(self).managers == old(self).managers,
            ({
                let i = position(old(self).attachments@, id)->0;
                let before = old(self).attachments@[i].inner;
                &&& final(self).attachments@ == with_inner(
                    old(self).attachments@,
                    i,
                    AttachmentInner { window_id: Some(window_id), ..before.placed(at) },
                )
                &&& final(self).bindings@ == match before.window_id {
                    Some(w) if w != window_id => unbound(old(self).bindings@, w, id),
                    _ => old(self).bindings@,
                }.push(Binding { window_id, attachment: id })
            }),
            old(self).valid() ==> final(self).valid(),
    {
        proof {
            if self.valid() {
                attaching_keeps_bindings_consistent(
                    self.attachments@,
                    self.bindings@,
                    id,
                    window_id,
                    at,
                );
            }
        }
        if let Some(i) = self.find(id) {
            let before: AttachmentInner = self.attachments[i].inner;
            let inner = AttachmentInner {
                window_id: Some(window_id),
                offset_x: at.offset_x,
                offset_y: at.offset_y,
                width: at.width,
                height: at.height,
                surface: before.surface,
            };
            let changed: Attachment = Attachment { id: self.attachments[i].id, inner };
            self.attachments.set(i, changed);
            if let Some(w) = before.window_id {
                if w != window_id {
                    drop_binding(&mut self.bindings, w, id);
                }
            }
            self.bindings.push(Binding { window_id, attachment: id });
        }
    }

    /// A shell moves an attachment on its window; nothing changes where it is attached to none.
    pub fn update_geometry(&mut self, id: u64, at: Placement)
        requires
            position(old(self).attachments@, id) is Some,
        ensures
            final(self).managers == old(self).managers,
            final(self).bindings == old(self).bindings,
            ({
                let i = position(old(self).attachments@, id)->0;
                let before = old(self).attachments@[i].inner;
                final(self).attachments@ == if before.window_id is Some {
                    with_inner(old(self).attachments@, i, before.placed(at))
                } else {
                    old(self).attachments@
                }
            }),
            old(self).valid() ==> final(self).valid(),
    {
        if let Some(i) = self.find(id) {
            proof {
                if self.valid() {
                    lemma_moved(self.attachments@, self.bindings@, i as int, at);
                }
            }
            let before: AttachmentInner = self.attachments[i].inner;
            if before.window_id.is_none() {
                return ;
            }
            let inner = AttachmentInner {
                window_id: before.window_id,
                offset_x: at.offset_x,
                offset_y: at.offset_y,
                width: at.width,
                height: at.height,
                surface: before.surface,
            };
            let changed: Attachment = Attachment { id: self.attachments[i].id, inner };
            self.attachments.set(i, changed);
        }
    }

    /// A shell gives an attachment up: it is attached to no window any more.
    pub fn destroy(&mut self, id: u64)
        requires
            position(old(self).attachments@, id) is Some,
        ensures
            final(self).managers == old(self).managers,
            ({
                let i = position(old(self).attachments@, id)->0;
                let before = old(self).attachments@[i].inner;
                &&& final(self).attachments@ == with_inner(
                    old(self).attachments@,
                    i,
                    AttachmentInner { window_id: None, ..before },
                )
                &&& final(self).bindings@ == match before.window_id {
                    Some(w) => unbound(old(self).bindings@, w, id),
                    None => old(self).bindings@,
                }
            }),
            old(self).valid() ==> final(self).valid(),
    {
        proof {
            if self.valid() {
                giving_up_keeps_bindings_consistent(self.attachments@, self.bindings@, id);
            }
        }
        if let Some(i) = self.find(id) {
            let mut changed: Attachment = self.attachments[i];
            let window_id: Option<u32> = changed.inner.window_id;
            changed.inner.window_id = None;
            self.attachments.set(i, changed);
            if let Some(w) = window_id {
                drop_binding(&mut self.bindings, w, id);
            }
        }
    }

    /// A window goes away: nothing is attached to it any more. Returns the attachments that are
    /// told so, in the order in which they were attached.
    pub fn unbind_window(&mut self, window_id: u32) -> (r: Vec<u64>)
        ensures
            final(self).managers == old(self).managers,
            final(self).bindings@ == bound_elsewhere(old(self).bindings@, window_id),
            r@ == bound_to(old(self).bindings@, window_id).map_values(|b: Binding| b.attachment),
            final(self).attachments@ == freed(
                old(self).attachments@,
                bound_to(old(self).bindings@, window_id),
            ),
            old(self).valid() ==> final(self).valid(),
    {
        proof {
            if self.valid() {
                a_gone_window_has_no_attachments(self.attachments@, self.bindings@, window_id);
            }
        }
        let ghost before = self.bindings@;
        let ghost here = |b: Binding| b.window_id == window_id;
        let ghost elsewhere = |b: Binding| b.window_id != window_id;
        let mut left: Vec<Binding> = Vec::new();
        let mut told: Vec<u64> = Vec::new();
        let mut i: usize = 0;
        proof {
            reveal(Seq::filter);
            assert(left@ =~= before.take(0).filter(elsewhere));
            assert(told@ =~= before.take(0).filter(here).map_values(|b: Binding| b.attachment));
            assert(freed(self.attachments@, before.take(0).filter(here)) == self.attachments@);
        }
        while i < self.bindings.len()
            invariant
                i <= self.bindings@.len(),
                before == self.bindings@,
                self.managers == old(self).managers,
                here == (|b: Binding| b.window_id == window_id),
                elsewhere == (|b: Binding| b.window_id != window_id),
                left@ == before.take(i as int).filter(elsewhere),
                told@ =~= before.take(i as int).filter(here).map_values(
                    |b: Binding| b.attachment,
                ),
                self.attachments@ == freed(
                    old(self).attachments@,
                    before.take(i as int).filter(here),
                ),
            decreases self.bindings@.len() - i,
        {
            let b: Binding = self.bindings[i];
            let ghost so_far = before.take(i as int).filter(here);
            proof {
                seqs::lemma_filter_take(before, elsewhere, i as int);
                seqs::lemma_filter_take(before, here, i as int);
                assert(so_far.push(b).drop_last() =~= so_far);
            }
            if b.window_id == window_id {
                told.push(b.attachment);
                if let Some(k) = self.find(b.attachment) {
                    let mut changed: Attachment = self.attachments[k];
                    changed.inner.window_id = None;
                    self.attachments.set(k, changed);
                }
            } else {
                left.push(b);
            }
            i += 1;
        }
        assert(before.take(i as int) =~= before);
        self.bindings = left;
        told
    }

    /// The surfaces that are attached to windows, in the order in which they were attached.
    pub fn snapshot(&self) -> (r: Vec<AttachmentSnapshot>)
        ensures
            r@ == rows(self.attachments@, self.bindings@),
    {
        let mut out: Vec<AttachmentSnapshot> = Vec::new();
        let mut i: usize = 0;
        assert(out@ =~= rows(self.attachments@, self.bindings@.take(0)));
        while i < self.bindings.len()
            invariant
                i <= self.bindings@.len(),
                out@ == rows(self.attachments@, self.bindings@.take(i as int)),
            decreases self.bindings@.len() - i,
        {
            proof {
                assert(self.bindings@.take(i + 1).drop_last() =~= self.bindings@.take(i as int));
                assert(self.bindings@.take(i + 1).last() == self.bindings@[i as int]);
            }
            let b: Binding = self.bindings[i];
            if let Some(k) = self.find(b.attachment) {
                let inner: AttachmentInner = self.attachments[k].inner;
                if let Some(surface) = inner.surface {
                    out.push(
                        AttachmentSnapshot {
                            window_id: b.window_id,
                            surface,
                            offset_x: inner.offset_x,
                            offset_y: inner.offset_y,
                            width: inner.width,
                            height: inner.height,
                        },
                    );
                }
            }
            i += 1;
        }
        assert(self.bindings@.take(i as int) =~= self.bindings@);
        out
    }
}

/// The attachments after those of the given bindings have left their windows.
pub open spec fn freed(attachments: Seq<Attachment>, bindings: Seq<Binding>) -> Seq<Attachment>
    decreases bindings.len(),
{
    if bindings.len() == 0 {
        attachments
    } else {
        let before = freed(attachments, bindings.drop_last());
        match position(before, bindings.last().attachment) {
            Some(i) => with_inner(
                before,
                i,
                AttachmentInner { window_id: None, ..before[i].inner },
            ),
            None => before,
        }
    }
}

/// The surfaces of the given bindings.
pub open spec fn rows(attachments: Seq<Attachment>, bindings: Seq<Binding>) -> Seq<
    AttachmentSnapshot,
>
    decreases bindings.len(),
{
    if bindings.len() == 0 {
        seq![]
    } else {
        let before = rows(attachments, bindings.drop_last());
        let b = bindings.last();
        match position(attachments, b.attachment) {
            Some(i) => match attachments[i].inner.surface {
                Some(surface) => before.push(
                    AttachmentSnapshot {
                        window_id: b.window_id,
                        surface,
                        offset_x: attachments[i].inner.offset_x,
                        offset_y: attachments[i].inner.offset_y,
                        width: attachments[i].inner.width,
                        height: attachments[i].inner.height,
                    },
                ),
                None => before,
            },
            None => before,
        }
    }
}

/// Where the numbers are distinct, an attachment is found by its number.
proof fn lemma_unique_position(attachments: Seq<Attachment>, i: int)
    requires
        0 <= i < attachments.len(),
        forall|a: int, b: int|
            0 <= a < b < attachments.len() ==> (#[trigger] attachments[a]).id != (
            #[trigger] attachments[b]).id,
    ensures
        position(attachments, attachments[i].id) == Some(i),
{
    let id = attachments[i].id;
    lemma_position(attachments, id);
    if position(attachments, id) is None {
        assert(attachments[i].id != id);
    } else {
        let k = position(attachments, id)->0;
        if k < i {
            assert(attachments[k].id != attachments[i].id);
        } else if i < k {
            assert(attachments[i].id != attachments[k].id);
        }
    }
}

/// Attachments that differ in nothing but where they are attached are found at the same
/// positions.
proof fn lemma_same_position(a: Seq<Attachment>, b: Seq<Attachment>, id: u64)
    requires
        a.len() == b.len(),
        forall|i: int| 0 <= i < a.len() ==> (#[trigger] b[i]).id == a[i].id,
    ensures
        position(a, id) == position(b, id),
    decreases a.len(),
{
    if a.len() > 0 {
        assert(b[0].id == a[0].id);
        assert forall|i: int| 0 <= i < a.skip(1).len() implies (#[trigger] b.skip(1)[i]).id
            == a.skip(1)[i].id by {
            assert(b[i + 1].id == a[i + 1].id);
        }
        lemma_same_position(a.skip(1), b.skip(1), id);
    }
}

/// An attachment with a number of its own that belongs to no window keeps the others consistent.
proof fn lemma_added(attachments: Seq<Attachment>, bindings: Seq<Binding>, added: Attachment)
    requires
        consistent(attachments, bindings),
        position(attachments, added.id) is None,
        added.inner.window_id is None,
    ensures
        consistent(attachments.push(added), bindings),
{
    let after = attachments.push(added);
    lemma_position(attachments, added.id);
    assert forall|a: int, b: int| 0 <= a < b < after.len() implies (#[trigger] after[a]).id != (
    #[trigger] after[b]).id by {
        assert(after[a] == attachments[a]);
        if b < attachments.len() {
            assert(attachments[a].id != attachments[b].id);
        }
    }
    assert forall|k: int| 0 <= k < after.len() implies match (#[trigger] after[k]).inner.window_id {
        Some(w) => bindings.contains(Binding { window_id: w, attachment: after[k].id }),
        None => true,
    } by {
        if k < attachments.len() {
            assert(after[k] == attachments[k]);
        }
    }
    assert forall|k: int| 0 <= k < bindings.len() implies match position(
        after,
        (#[trigger] bindings[k]).attachment,
    ) {
        Some(n) => after[n].inner.window_id == Some(bindings[k].window_id),
        None => false,
    } by {
        let n = position(attachments, bindings[k].attachment)->0;
        lemma_position(attachments, bindings[k].attachment);
        assert(after[n] == attachments[n]);
        lemma_unique_position(after, n);
    }
}

/// Moving an attachment on its window keeps all of them consistent.
proof fn lemma_moved(
    attachments: Seq<Attachment>,
    bindings: Seq<Binding>,
    i: int,
    at: Placement,
)
    requires
        consistent(attachments, bindings),
        0 <= i < attachments.len(),
    ensures
        consistent(with_inner(attachments, i, attachments[i].inner.placed(at)), bindings),
{
    let after = with_inner(attachments, i, attachments[i].inner.placed(at));
    assert forall|k: int| 0 <= k < after.len() implies (#[trigger] after[k]).id
        == attachments[k].id && after[k].inner.window_id == attachments[k].inner.window_id by {}
    assert forall|a: int, b: int| 0 <= a < b < after.len() implies (#[trigger] after[a]).id != (
    #[trigger] after[b]).id by {
        assert(attachments[a].id != attachments[b].id);
    }
    assert forall|k: int| 0 <= k < bindings.len() implies match position(
        after,
        (#[trigger] bindings[k]).attachment,
    ) {
        Some(n) => after[n].inner.window_id == Some(bindings[k].window_id),
        None => false,
    } by {
        lemma_same_position(attachments, after, bindings[k].attachment);
        lemma_position(attachments, bindings[k].attachment);
    }
}

/// Attaching a surface keeps the attachments and the windows consistent.
pub proof fn attaching_keeps_bindings_consistent(
    attachments: Seq<Attachment>,
    bindings: Seq<Binding>,
    id: u64,
    window_id: u32,
    at: Placement,
)
    requires
        consistent(attachments, bindings),
        position(attachments, id) is Some,
    ensures
        ({
            let i = position(attachments, id)->0;
            let before = attachments[i].inner;
            consistent(
                with_inner(
                    attachments,
                    i,
                    AttachmentInner { window_id: Some(window_id), ..before.placed(at) },
                ),
                match before.window_id {
                    Some(w) if w != window_id => unbound(bindings, w, id),
                    _ => bindings,
                }.push(Binding { window_id, attachment: id }),
            )
        }),
{
    lemma_position(attachments, id);
    let i = position(attachments, id)->0;
    let before = attachments[i].inner;
    let inner = AttachmentInner { window_id: Some(window_id), ..before.placed(at) };
    let after = with_inner(attachments, i, inner);
    let rest = match before.window_id {
        Some(w) if w != window_id => unbound(bindings, w, id),
        _ => bindings,
    };
    let all = rest.push(Binding { window_id, attachment: id });
    assert(all[rest.len() as int] == (Binding { window_id, attachment: id }));
    if before.window_id is Some {
        seqs::lemma_filter_contains(
            bindings,
            |b: Binding| b != (Binding { window_id: before.window_id->0, attachment: id }),
        );
    }
    assert forall|a: int, b: int| 0 <= a < b < after.len() implies (#[trigger] after[a]).id != (
    #[trigger] after[b]).id by {
        assert(attachments[a].id != attachments[b].id);
    }
    assert forall|k: int| 0 <= k < after.len() implies match (#[trigger] after[k]).inner.window_id {
        Some(w) => all.contains(Binding { window_id: w, attachment: after[k].id }),
        None => true,
    } by {
        if k == i {
            assert(all.contains(Binding { window_id, attachment: id }));
        } else {
            assert(after[k] == attachments[k]);
            if let Some(w) = attachments[k].inner.window_id {
                let wanted = Binding { window_id: w, attachment: attachments[k].id };
                assert(bindings.contains(wanted));
                let n = choose|n: int| 0 <= n < bindings.len() && bindings[n] == wanted;
                assert(attachments[k].id != id) by {
                    if k < i {
                        assert(attachments[k].id != attachments[i].id);
                    } else {
                        assert(attachments[i].id != attachments[k].id);
                    }
                }
                assert(rest.contains(wanted));
                let m = choose|m: int| 0 <= m < rest.len() && rest[m] == wanted;
                assert(all[m] == wanted);
            }
        }
    }
    assert forall|k: int| 0 <= k < all.len() implies match position(
        after,
        (#[trigger] all[k]).attachment,
    ) {
        Some(n) => after[n].inner.window_id == Some(all[k].window_id),
        None => false,
    } by {
        lemma_same_position(attachments, after, all[k].attachment);
        lemma_position(attachments, all[k].attachment);
        if k < rest.len() {
            assert(all[k] == rest[k]);
            assert(bindings.contains(rest[k]));
            let n = choose|n: int| 0 <= n < bindings.len() && bindings[n] == rest[k];
            let p = position(attachments, bindings[n].attachment)->0;
            assert(attachments[p].inner.window_id == Some(bindings[n].window_id));
        }
    }
}

/// Giving an attachment up keeps the attachments and the windows consistent, and leaves it
/// attached to no window.
pub proof fn giving_up_keeps_bindings_consistent(
    attachments: Seq<Attachment>,
    bindings: Seq<Binding>,
    id: u64,
)
    requires
        consistent(attachments, bindings),
        position(attachments, id) is Some,
    ensures
        ({
            let i = position(attachments, id)->0;
            let before = attachments[i].inner;
            let left = match before.window_id {
                Some(w) => unbound(bindings, w, id),
                None => bindings,
            };
            &&& consistent(
                with_inner(attachments, i, AttachmentInner { window_id: None, ..before }),
                left,
            )
            &&& forall|k: int| 0 <= k < left.len() ==> (#[trigger] left[k]).attachment != id
        }),
{
    lemma_position(attachments, id);
    let i = position(attachments, id)->0;
    let before = attachments[i].inner;
    let after = with_inner(attachments, i, AttachmentInner { window_id: None, ..before });
    let left = match before.window_id {
        Some(w) => unbound(bindings, w, id),
        None => bindings,
    };
    if before.window_id is Some {
        seqs::lemma_filter_contains(
            bindings,
            |b: Binding| b != (Binding { window_id: before.window_id->0, attachment: id }),
        );
    }
    assert forall|k: int| 0 <= k < left.len() implies (#[trigger] left[k]).attachment != id by {
        assert(bindings.contains(left[k]));
        let n = choose|n: int| 0 <= n < bindings.len() && bindings[n] == left[k];
        let p = position(attachments, bindings[n].attachment)->0;
        assert(attachments[p].inner.window_id == Some(bindings[n].window_id));
    }
    assert forall|a: int, b: int| 0 <= a < b < after.len() implies (#[trigger] after[a]).id != (
    #[trigger] after[b]).id by {
        assert(attachments[a].id != attachments[b].id);
    }
    assert forall|k: int| 0 <= k < after.len() implies match (#[trigger] after[k]).inner.window_id {
        Some(w) => left.contains(Binding { window_id: w, attachment: after[k].id }),
        None => true,
    } by {
        if k != i {
            assert(after[k] == attachments[k]);
            if let Some(w) = attachments[k].inner.window_id {
                let wanted = Binding { window_id: w, attachment: attachments[k].id };
                assert(bindings.contains(wanted));
                let n = choose|n: int| 0 <= n < bindings.len() && bindings[n] == wanted;
                assert(attachments[k].id != id) by {
                    if k < i {
                        assert(attachments[k].id != attachments[i].id);
                    } else {
                        assert(attachments[i].id != attachments[k].id);
                    }
                }
                assert(left.contains(bindings[n]));
            }
        }
    }
    assert forall|k: int| 0 <= k < left.len() implies match position(
        after,
        (#[trigger] left[k]).attachment,
    ) {
        Some(n) => after[n].inner.window_id == Some(left[k].window_id),
        None => false,
    } by {
        assert(bindings.contains(left[k]));
        let n = choose|n: int| 0 <= n < bindings.len() && bindings[n] == left[k];
        lemma_same_position(attachments, after, left[k].attachment);
        lemma_position(attachments, left[k].attachment);
        let p = position(attachments, bindings[n].attachment)->0;
        assert(attachments[p].inner.window_id == Some(bindings[n].window_id));
    }
}

/// What the attachments are after some have left their windows: only those of the bindings have.
proof fn lemma_freed(attachments: Seq<Attachment>, bindings: Seq<Binding>)
    requires
        forall|a: int, b: int|
            0 <= a < b < attachments.len() ==> (#[trigger] attachments[a]).id != (
            #[trigger] attachments[b]).id,
    ensures
        freed(attachments, bindings).len() == attachments.len(),
        forall|i: int|
            0 <= i < attachments.len() ==> (#[trigger] freed(attachments, bindings)[i]).id
                == attachments[i].id && freed(attachments, bindings)[i].inner.window_id == if exists|
                k: int,
            |
                0 <= k < bindings.len() && (#[trigger] bindings[k]).attachment
                    == attachments[i].id {
                None
            } else {
                attachments[i].inner.window_id
            },
    decreases bindings.len(),
{
    if bindings.len() > 0 {
        let init = bindings.drop_last();
        let last = bindings.last().attachment;
        lemma_freed(attachments, init);
        let before = freed(attachments, init);
        let after = freed(attachments, bindings);
        lemma_position(before, last);
        assert forall|i: int| 0 <= i < attachments.len() implies (#[trigger] after[i]).id
            == attachments[i].id && after[i].inner.window_id == if exists|k: int|
            0 <= k < bindings.len() && (#[trigger] bindings[k]).attachment == attachments[i].id {
            None
        } else {
            attachments[i].inner.window_id
        } by {
            assert(before[i].id == attachments[i].id);
            if attachments[i].id == last {
                assert(bindings[bindings.len() - 1].attachment == attachments[i].id);
                let p = position(before, last)->0;
                assert(before[p].id == attachments[p].id);
                if p < i {
                    assert(attachments[p].id != attachments[i].id);
                } else if i < p {
                    assert(attachments[i].id != attachments[p].id);
                }
            } else {
                if exists|k: int|
                    0 <= k < bindings.len() && (#[trigger] bindings[k]).attachment
                        == attachments[i].id {
                    let k = choose|k: int|
                        0 <= k < bindings.len() && (#[trigger] bindings[k]).attachment
                            == attachments[i].id;
                    assert(init[k] == bindings[k]);
                }
                if exists|k: int|
                    0 <= k < init.len() && (#[trigger] init[k]).attachment == attachments[i].id {
                    let k = choose|k: int|
                        0 <= k < init.len() && (#[trigger] init[k]).attachment
                            == attachments[i].id;
                    assert(bindings[k] == init[k]);
                }
            }
        }
    }
}

/// When a window goes away, nothing is attached to it any more, and the attachments and the other
/// windows stay consistent.
pub proof fn a_gone_window_has_no_attachments(
    attachments: Seq<Attachment>,
    bindings: Seq<Binding>,
    window_id: u32,
)
    requires
        consistent(attachments, bindings),
    ensures
        ({
            let after = freed(attachments, bound_to(bindings, window_id));
            let left = bound_elsewhere(bindings, window_id);
            &&& consistent(after, left)
            &&& forall|k: int| 0 <= k < left.len() ==> (#[trigger] left[k]).window_id != window_id
            &&& forall|i: int|
                0 <= i < after.len() ==> (#[trigger] after[i]).inner.window_id != Some(window_id)
        }),
{
    let here = bound_to(bindings, window_id);
    let left = bound_elsewhere(bindings, window_id);
    let after = freed(attachments, here);
    lemma_freed(attachments, here);
    seqs::lemma_filter_contains(bindings, |b: Binding| b.window_id == window_id);
    seqs::lemma_filter_contains(bindings, |b: Binding| b.window_id != window_id);
    // A binding of the window names an attachment of the window.
    assert forall|i: int, k: int|
        0 <= i < attachments.len() && 0 <= k < here.len() && (#[trigger] here[k]).attachment == (
        #[trigger] attachments[i]).id implies attachments[i].inner.window_id == Some(
        window_id,
    ) by {
        assert(bindings.contains(here[k]));
        let n = choose|n: int| 0 <= n < bindings.len() && bindings[n] == here[k];
        lemma_unique_position(attachments, i);
        assert(position(attachments, bindings[n].attachment) == Some(i));
    }
    assert forall|i: int| 0 <= i < after.len() implies (#[trigger] after[i]).inner.window_id
        != Some(window_id) by {
        if attachments[i].inner.window_id == Some(window_id) {
            let wanted = Binding { window_id, attachment: attachments[i].id };
            assert(bindings.contains(wanted));
            let n = choose|n: int| 0 <= n < bindings.len() && bindings[n] == wanted;
            assert(here.contains(bindings[n]));
            let k = choose|k: int| 0 <= k < here.len() && here[k] == wanted;
            assert(here[k].attachment == attachments[i].id);
        }
    }
    assert forall|a: int, b: int| 0 <= a < b < after.len() implies (#[trigger] after[a]).id != (
    #[trigger] after[b]).id by {
        assert(after[a].id == attachments[a].id);
        assert(after[b].id == attachments[b].id);
        assert(attachments[a].id != attachments[b].id);
    }
    assert forall|i: int| 0 <= i < after.len() implies match (#[trigger] after[i]).inner.window_id {
        Some(w) => left.contains(Binding { window_id: w, attachment: after[i].id }),
        None => true,
    } by {
        if let Some(w) = after[i].inner.window_id {
            let wanted = Binding { window_id: w, attachment: attachments[i].id };
            assert(attachments[i].inner.window_id == Some(w));
            assert(bindings.contains(wanted));
            let n = choose|n: int| 0 <= n < bindings.len() && bindings[n] == wanted;
            assert(w != window_id);
            assert(left.contains(bindings[n]));
        }
    }
    assert forall|k: int| 0 <= k < left.len() implies match position(
        after,
        (#[trigger] left[k]).attachment,
    ) {
        Some(i) => after[i].inner.window_id == Some(left[k].window_id),
        None => false,
    } by {
        assert(bindings.contains(left[k]));
        let n = choose|n: int| 0 <= n < bindings.len() && bindings[n] == left[k];
        lemma_same_position(attachments, after, left[k].attachment);
        lemma_position(attachments, left[k].attachment);
        let i = position(attachments, bindings[n].attachment)->0;
        assert(attachments[i].inner.window_id == Some(bindings[n].window_id));
        assert(after[i].id == attachments[i].id);
        if exists|m: int|
            0 <= m < here.len() && (#[trigger] here[m]).attachment == attachments[i].id {
            let m = choose|m: int|
                0 <= m < here.len() && (#[trigger] here[m]).attachment == attachments[i].id;
            assert(here[m].attachment == attachments[i].id);
        }
    }
}

} // verus!
