//! Which surfaces are attached to which windows, and where.

use crate::wayland::protocols::window_attach;
use crate::wayland::protocols::window_attach::{
    Attachment, AttachmentInner, AttachmentSnapshot, Binding, Placement,
};
use vstd::prelude::*;

verus! {

/// A surface that is placed is where it was asked to be, and all else of it stays.
pub proof fn placing_moves_a_surface(inner: AttachmentInner, at: Placement)
    ensures
        inner.placed(at).offset_x == at.offset_x,
        inner.placed(at).offset_y == at.offset_y,
        inner.placed(at).width == at.width,
        inner.placed(at).height == at.height,
        inner.placed(at).surface == inner.surface,
        inner.placed(at).window_id == inner.window_id,
{
}

/// An attachment is found by its number, the first one with it.
pub proof fn attachments_are_found_by_number(attachments: Seq<Attachment>, id: u64)
    ensures
        match window_attach::position(attachments, id) {
            Some(i) => 0 <= i < attachments.len() && attachments[i].id == id && forall|j: int|
                0 <= j < i ==> (#[trigger] attachments[j]).id != id,
            None => forall|j: int|
                0 <= j < attachments.len() ==> (#[trigger] attachments[j]).id != id,
        },
    decreases attachments.len(),
{
    if attachments.len() > 0 && attachments[0].id != id {
        let rest = attachments.skip(1);
        attachments_are_found_by_number(rest, id);
        assert forall|j: int| 0 < j < attachments.len() implies #[trigger] attachments[j]
            == rest[j - 1] by {}
    }
}

/// A change of one attachment leaves its number and all others alone.
pub proof fn one_attachment_changes(
    attachments: Seq<Attachment>,
    i: int,
    inner: AttachmentInner,
    j: int,
)
    requires
        0 <= i < attachments.len(),
        0 <= j < attachments.len(),
    ensures
        ({
            let after = window_attach::with_inner(attachments, i, inner);
            &&& after.len() == attachments.len()
            &&& after[i].id == attachments[i].id
            &&& after[i].inner == inner
            &&& j != i ==> after[j] == attachments[j]
        }),
{
}

/// The bindings of a window and those of the others are all bindings, each in the order that they
/// had; taking off one of an attachment takes off no other.
pub proof fn bindings_are_told_apart(bindings: Seq<Binding>, b: Binding, window_id: u32, id: u64)
    ensures
        b.window_id == window_id ==> window_attach::bound_to(bindings.push(b), window_id)
            == window_attach::bound_to(bindings, window_id).push(b)
            && window_attach::bound_elsewhere(bindings.push(b), window_id)
            == window_attach::bound_elsewhere(bindings, window_id),
        b.window_id != window_id ==> window_attach::bound_elsewhere(bindings.push(b), window_id)
            == window_attach::bound_elsewhere(bindings, window_id).push(b)
            && window_attach::bound_to(bindings.push(b), window_id) == window_attach::bound_to(
            bindings,
            window_id,
        ),
        b.window_id == window_id && b.attachment == id ==> window_attach::unbound(
            bindings.push(b),
            window_id,
            id,
        ) == window_attach::unbound(bindings, window_id, id),
        b.window_id != window_id || b.attachment != id ==> window_attach::unbound(
            bindings.push(b),
            window_id,
            id,
        ) == window_attach::unbound(bindings, window_id, id).push(b),
        window_attach::bound_to(seq![], window_id).len() == 0,
        window_attach::bound_elsewhere(seq![], window_id).len() == 0,
        window_attach::unbound(seq![], window_id, id).len() == 0,
{
    reveal(Seq::filter);
    assert(bindings.push(b).drop_last() =~= bindings);
}

/// Attachments that leave their windows stay where they were placed, with their surfaces, and
/// belong to no window; the others stay as they are.
pub proof fn freed_attachments_belong_to_no_window(
    attachments: Seq<Attachment>,
    bindings: Seq<Binding>,
    i: int,
)
    requires
        0 <= i < attachments.len(),
        forall|a: int, b: int|
            0 <= a < b < attachments.len() ==> (#[trigger] attachments[a]).id != (
            #[trigger] attachments[b]).id,
    ensures
        ({
            let after = window_attach::freed(attachments, bindings);
            &&& after.len() == attachments.len()
            &&& after[i].id == attachments[i].id
            &&& (exists|k: int|
                0 <= k < bindings.len() && (#[trigger] bindings[k]).attachment
                    == attachments[i].id) ==> after[i].inner.window_id is None
            &&& (forall|k: int|
                0 <= k < bindings.len() ==> (#[trigger] bindings[k]).attachment
                    != attachments[i].id) ==> after[i] == attachments[i]
            &&& after[i].inner.surface == attachments[i].inner.surface
            &&& after[i].inner.offset_x == attachments[i].inner.offset_x
            &&& after[i].inner.offset_y == attachments[i].inner.offset_y
            &&& after[i].inner.width == attachments[i].inner.width
            &&& after[i].inner.height == attachments[i].inner.height
        }),
    decreases bindings.len(),
{
    if bindings.len() > 0 {
        let init = bindings.drop_last();
        let before = window_attach::freed(attachments, init);
        let last = bindings.last();
        assert forall|k: int| 0 <= k < attachments.len() implies (#[trigger] before[k]).id
            == attachments[k].id by {
            freed_attachments_belong_to_no_window(attachments, init, k);
        }
        freed_attachments_belong_to_no_window(attachments, init, i);
        attachments_are_found_by_number(before, last.attachment);
        assert forall|k: int| 0 <= k < init.len() implies #[trigger] init[k] == bindings[k] by {}
        if exists|k: int|
            0 <= k < bindings.len() && (#[trigger] bindings[k]).attachment == attachments[i].id {
            let k = choose|k: int|
                0 <= k < bindings.len() && (#[trigger] bindings[k]).attachment
                    == attachments[i].id;
            if k < init.len() {
                assert(init[k].attachment == attachments[i].id);
            } else {
                assert(last.attachment == before[i].id);
            }
        } else {
            assert(bindings[bindings.len() - 1] == last);
            assert(forall|k: int|
                0 <= k < init.len() ==> (#[trigger] init[k]).attachment != attachments[i].id);
        }
    }
}

/// The surfaces that are attached are listed in the order of their bindings, each with its
/// window, its place and its size; an attachment that is gone, or has no surface, is left out.
pub proof fn attached_surfaces_are_listed(
    attachments: Seq<Attachment>,
    bindings: Seq<Binding>,
    b: Binding,
    i: int,
    surface: u64,
)
    ensures
        window_attach::rows(attachments, seq![]) == Seq::<AttachmentSnapshot>::empty(),
        0 <= i < attachments.len() && attachments[i].id == b.attachment && (forall|j: int|
            0 <= j < i ==> (#[trigger] attachments[j]).id != b.attachment)
            && attachments[i].inner.surface == Some(surface) ==> ({
            let before = window_attach::rows(attachments, bindings);
            let after = window_attach::rows(attachments, bindings.push(b));
            &&& after.len() == before.len() + 1
            &&& after.drop_last() == before
            &&& after.last().window_id == b.window_id
            &&& after.last().surface == surface
            &&& after.last().offset_x == attachments[i].inner.offset_x
            &&& after.last().offset_y == attachments[i].inner.offset_y
            &&& after.last().width == attachments[i].inner.width
            &&& after.last().height == attachments[i].inner.height
        }),
        0 <= i < attachments.len() && attachments[i].id == b.attachment && (forall|j: int|
            0 <= j < i ==> (#[trigger] attachments[j]).id != b.attachment)
            && attachments[i].inner.surface is None ==> window_attach::rows(
            attachments,
            bindings.push(b),
        ) == window_attach::rows(attachments, bindings),
        (forall|j: int| 0 <= j < attachments.len() ==> (#[trigger] attachments[j]).id != b.attachment)
            ==> window_attach::rows(attachments, bindings.push(b)) == window_attach::rows(
            attachments,
            bindings,
        ),
{
    assert(bindings.push(b).drop_last() =~= bindings);
    attachments_are_found_by_number(attachments, b.attachment);
    let before = window_attach::rows(attachments, bindings);
    let after = window_attach::rows(attachments, bindings.push(b));
    if 0 <= i < attachments.len() && attachments[i].id == b.attachment && (forall|j: int|
        0 <= j < i ==> (#[trigger] attachments[j]).id != b.attachment) {
        assert(window_attach::position(attachments, b.attachment) == Some(i)) by {
            let p = window_attach::position(attachments, b.attachment)->0;
            if p < i {
                assert(attachments[p].id != b.attachment);
            } else if i < p {
                assert(attachments[i].id != b.attachment);
            }
        }
        if attachments[i].inner.surface == Some(surface) {
            assert(after.drop_last() =~= before);
        }
    }
}

} // verus!
