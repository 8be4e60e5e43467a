//! The calls that a render context makes on its drawing backend, and a model of what the
//! draw target shows after a sequence of them.
//!
//! A backend is any `FnMut(BackendCall) -> Result<(), E>`: it performs the call on the real
//! target and says whether that worked. The render context decides which calls are made, with
//! which arguments and in which order, and hands every failure back unchanged.

use crate::graphics::Color;
use crate::graphics::DrawParam;
use crate::graphics::Image;
use crate::graphics::Mesh;
use crate::graphics::PrimitiveView;
use crate::graphics::Text;
use crate::mesh::MeshBuilder;
use vstd::prelude::*;

verus! {

/// One request to the drawing backend.
#[derive(Clone, Debug, PartialEq, Eq)]
pub enum BackendCall {
    /// Overwrite the whole target with one colour.
    Clear { color: Color },
    /// Draw a text.
    DrawText { text: Text, param: DrawParam },
    /// Draw an image.
    DrawImage { image: Image, param: DrawParam },
    /// Draw a mesh that the backend already holds.
    DrawMesh { mesh: Mesh, param: DrawParam },
    /// Turn a buffer of primitives into one mesh.
    BuildMesh { builder: MeshBuilder },
    /// Draw the mesh that the preceding `BuildMesh` produced.
    DrawBuiltMesh { param: DrawParam },
    /// Show a text in the title of the window.
    SetWindowTitle { title: String },
}

/// What a [`BackendCall`] is, as a mathematical value.
pub enum BackendCallView {
    Clear { color: Color },
    DrawText { text: Text, param: DrawParam },
    DrawImage { image: Image, param: DrawParam },
    DrawMesh { mesh: Mesh, param: DrawParam },
    BuildMesh { primitives: Seq<PrimitiveView> },
    DrawBuiltMesh { param: DrawParam },
    SetWindowTitle { title: Seq<char> },
}

impl View for BackendCall {
    type V = BackendCallView;

    open spec fn view(&self) -> BackendCallView {
        match *self {
            BackendCall::Clear { color } => BackendCallView::Clear { color },
            BackendCall::DrawText { text, param } => BackendCallView::DrawText { text, param },
            BackendCall::DrawImage { image, param } => BackendCallView::DrawImage { image, param },
            BackendCall::DrawMesh { mesh, param } => BackendCallView::DrawMesh { mesh, param },
            BackendCall::BuildMesh { builder } => BackendCallView::BuildMesh {
                primitives: builder@,
            },
            BackendCall::DrawBuiltMesh { param } => BackendCallView::DrawBuiltMesh { param },
            BackendCall::SetWindowTitle { title } => BackendCallView::SetWindowTitle {
                title: title@,
            },
        }
    }
}

/// Whether `call` draws something on the target.
pub open spec fn is_draw(call: BackendCallView) -> bool {
    call is DrawText || call is DrawImage || call is DrawMesh || call is DrawBuiltMesh
}

/// Whether `call` asks for a mesh of no primitives at all, which a backend cannot build.
pub open spec fn builds_nothing(call: BackendCallView) -> bool {
    call matches BackendCallView::BuildMesh { primitives } && primitives.len() == 0
}

/// None of `calls` asks for a mesh of no primitives.
pub open spec fn buildable(calls: Seq<BackendCallView>) -> bool {
    forall|i: int| 0 <= i < calls.len() ==> !builds_nothing(#[trigger] calls[i])
}

/// What a draw target shows: the colour it was last cleared to, if it ever was, and the calls
/// performed on it since, oldest first, each of which paints over what was there.
pub struct Target {
    pub background: Option<Color>,
    pub content: Seq<BackendCallView>,
}

/// The target that has never been cleared nor drawn on.
pub open spec fn untouched() -> Target {
    Target { background: None, content: Seq::empty() }
}

/// The target `t` after one more call: a clear leaves nothing but its colour, the title of
/// the window is no part of the target, and every other call is added to what the target
/// shows.
pub open spec fn target_step(t: Target, call: BackendCallView) -> Target {
    match call {
        BackendCallView::Clear { color } => Target {
            background: Some(color),
            content: Seq::empty(),
        },
        BackendCallView::SetWindowTitle { title } => t,
        _ => Target { background: t.background, content: t.content.push(call) },
    }
}

/// The target after the backend has performed `calls` in order on an untouched target.
pub open spec fn target_after(calls: Seq<BackendCallView>) -> Target
    decreases calls.len(),
{
    if calls.len() == 0 {
        untouched()
    } else {
        target_step(target_after(calls.drop_last()), calls.last())
    }
}

/// How many of `calls` build a mesh.
pub open spec fn builds(calls: Seq<BackendCallView>) -> nat
    decreases calls.len(),
{
    if calls.len() == 0 {
        0
    } else {
        builds(calls.drop_last()) + if calls.last() is BuildMesh {
            1nat
        } else {
            0nat
        }
    }
}

/// How many of `calls` draw something.
pub open spec fn draws(calls: Seq<BackendCallView>) -> nat
    decreases calls.len(),
{
    if calls.len() == 0 {
        0
    } else {
        draws(calls.drop_last()) + if is_draw(calls.last()) {
            1nat
        } else {
            0nat
        }
    }
}

/// One more call counts once, as a build or as a draw or as neither.
pub proof fn lemma_counts_push(calls: Seq<BackendCallView>, call: BackendCallView)
    ensures
        builds(calls.push(call)) == builds(calls) + if call is BuildMesh {
            1nat
        } else {
            0nat
        },
        draws(calls.push(call)) == draws(calls) + if is_draw(call) {
            1nat
        } else {
            0nat
        },
{
    assert(calls.push(call).drop_last() =~= calls);
}

/// One more call changes the target by one step.
pub proof fn lemma_target_after_push(calls: Seq<BackendCallView>, call: BackendCallView)
    ensures
        target_after(calls.push(call)) == target_step(target_after(calls), call),
{
    assert(calls.push(call).drop_last() =~= calls);
}

/// A clear overwrites the target fully: whatever was performed before, the target then shows
/// the clear colour and nothing else.
pub proof fn lemma_clear_overwrites(calls: Seq<BackendCallView>, color: Color)
    ensures
        target_after(calls.push(BackendCallView::Clear { color })) == (Target {
            background: Some(color),
            content: Seq::empty(),
        }),
{
    lemma_target_after_push(calls, BackendCallView::Clear { color });
}

/// Clearing is idempotent: two clears in a row leave the target as one clear does.
pub proof fn lemma_clear_idempotent(calls: Seq<BackendCallView>, color: Color)
    ensures
        target_after(
            calls.push(BackendCallView::Clear { color }).push(BackendCallView::Clear { color }),
        ) == target_after(calls.push(BackendCallView::Clear { color })),
{
    let once = calls.push(BackendCallView::Clear { color });
    lemma_clear_overwrites(calls, color);
    lemma_clear_overwrites(once, color);
}

} // verus!
