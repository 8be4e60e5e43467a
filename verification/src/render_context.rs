//! The render context of one frame: it turns world-space draw requests into calls on the
//! drawing backend.

use crate::backend::buildable;
use crate::backend::builds;
use crate::backend::builds_nothing;
use crate::backend::draws;
use crate::backend::lemma_clear_overwrites;
use crate::backend::lemma_counts_push;
use crate::backend::lemma_target_after_push;
use crate::backend::target_after;
use crate::backend::BackendCall;
use crate::backend::BackendCallView;
use crate::backend::Target;
use crate::camera_handler::CameraHandler;
use crate::geometry::expanded;
use crate::geometry::Point2;
use crate::geometry::Vector2;
use crate::graphics::Color;
use crate::graphics::DrawParam;
use crate::graphics::Image;
use crate::graphics::Mesh;
use crate::graphics::PrimitiveView;
use crate::graphics::Text;
use crate::mesh::MeshBuilder;
use crate::shape_render::fresh;
use crate::shape_render::ShapeRenderer;
use crate::title::fps_title;
use crate::title::fps_title_text;
use vstd::prelude::*;

verus! {

/// Draws for one frame through the backend `ctx`, as seen by the camera `cam`.
///
/// The backend is a function from a call to the answer of the real drawing system. Every
/// operation says which calls it makes on the backend, with which arguments and in which
/// order, and that what it returns is the backend's own answer.
pub struct RenderContext<B> {
    pub cam: CameraHandler,
    ctx: B,
    calls: Ghost<Seq<BackendCallView>>,
}

impl<E, B: FnMut(BackendCall) -> Result<(), E>> RenderContext<B> {
    /// The camera.
    pub closed spec fn camera(self) -> CameraHandler {
        self.cam
    }

    /// The backend.
    pub closed spec fn backend(self) -> B {
        self.ctx
    }

    /// The calls made on the backend since the context was created, oldest first.
    pub closed spec fn calls(self) -> Seq<BackendCallView> {
        self.calls@
    }

    /// The backend accepts every call, and it was never asked to build a mesh out of
    /// nothing.
    pub open spec fn wf(self) -> bool {
        &&& forall|call: BackendCall| call_requires(self.backend(), (call,))
        &&& buildable(self.calls())
    }

    /// Since `before`, the camera and the backend are the same, and exactly `made` was
    /// called on the backend, in this order.
    pub open spec fn continues(self, before: Self, made: Seq<BackendCallView>) -> bool {
        &&& self.camera() == before.camera()
        &&& self.backend() == before.backend()
        &&& self.calls() == before.calls() + made
    }

    /// Since `before`, the camera and the backend are the same, exactly `call` was made on
    /// the backend, and `r` is what the backend answered.
    pub open spec fn asked(self, before: Self, call: BackendCall, r: Result<(), E>) -> bool {
        &&& self.continues(before, seq![call@])
        &&& call_ensures(before.backend(), (call,), r)
    }

    /// A context for one frame, with no call made yet.
    pub fn new(cam: CameraHandler, ctx: B) -> (rc: Self)
        requires
            forall|call: BackendCall| call_requires(ctx, (call,)),
        ensures
            rc.wf(),
            rc.camera() == cam,
            rc.backend() == ctx,
            rc.calls() == Seq::<BackendCallView>::empty(),
    {
        RenderContext { cam, ctx, calls: Ghost(Seq::empty()) }
    }

    /// The camera through which this frame is seen.
    pub fn cam(&self) -> (c: &CameraHandler)
        ensures
            *c == self.camera(),
    {
        &self.cam
    }

    /// Sees the rest of the frame through `cam`. The backend and the calls made on it stay
    /// as they are.
    pub fn set_cam(&mut self, cam: CameraHandler)
        ensures
            final(self).camera() == cam,
            final(self).backend() == old(self).backend(),
            final(self).calls() == old(self).calls(),
            old(self).wf() ==> final(self).wf(),
    {
        self.cam = cam;
    }

    /// Makes `call` on the backend and notes it.
    fn call(&mut self, call: BackendCall) -> (r: Result<(), E>)
        requires
            old(self).wf(),
            !builds_nothing(call@),
        ensures
            final(self).wf(),
            final(self).asked(*old(self), call, r),
    {
        let ghost view = call@;
        assert(call_requires(old(self).backend(), (call,)));
        let r = (self.ctx)(call);
        self.calls = Ghost(self.calls@.push(view));
        assert(self.calls@ =~= old(self).calls@ + seq![view]);
        r
    }

    /// Overwrites the whole target with black: the backend is asked to clear to black, once.
    /// Whatever it answers, nothing is reported.
    pub fn clear(&mut self)
        requires
            old(self).wf(),
        ensures
            final(self).wf(),
            exists|answer: Result<(), E>| #[trigger]
                final(self).asked(
                    *old(self),
                    BackendCall::Clear { color: Color::spec_black() },
                    answer,
                ),
            target_after(final(self).calls()) == (Target {
                background: Some(Color::spec_black()),
                content: Seq::empty(),
            }),
    {
        let _ = self.call(BackendCall::Clear { color: Color::black() });
        proof {
            lemma_clear_overwrites(old(self).calls(), Color::spec_black());
        }
    }

    /// Shows the frame rate in the title of the window: the backend is asked, once, to set
    /// the title to `fps` in decimal followed by ` FPS`. The target stays as it is. Whatever
    /// the backend answers, nothing is reported.
    pub fn show_fps(&mut self, fps: i32)
        requires
            old(self).wf(),
        ensures
            final(self).wf(),
            exists|title: String, answer: Result<(), E>|
                {
                    &&& title@ == fps_title_text(fps as int)
                    &&& #[trigger] final(self).asked(
                        *old(self),
                        BackendCall::SetWindowTitle { title },
                        answer,
                    )
                },
            target_after(final(self).calls()) == target_after(old(self).calls()),
    {
        let _ = self.call(BackendCall::SetWindowTitle { title: fps_title(fps) });
        proof {
            let shown = BackendCallView::SetWindowTitle { title: fps_title_text(fps as int) };
            assert(self.calls() =~= old(self).calls().push(shown));
            lemma_target_after_push(old(self).calls(), shown);
        }
    }

    /// Draws `text` so that it stands on the world position `pos`: the backend is asked to
    /// draw it at `(pos.x, pos.y + text.height)`, mirrored vertically and unscaled
    /// horizontally. The result is the backend's answer.
    pub fn draw_text(&mut self, text: &Text, pos: Vector2) -> (r: Result<(), E>)
        requires
            old(self).wf(),
        ensures
            final(self).wf(),
            final(self).asked(
                *old(self),
                BackendCall::DrawText {
                    text: *text,
                    param: DrawParam {
                        dest: Point2 { x: pos.x as i64, y: (pos.y + text.height) as i64 },
                        scale: Vector2 { x: 1, y: -1i32 },
                    },
                },
                r,
            ),
    {
        let trans = DrawParam::new().dest(pos.flipped_dest(text.height)).scale(Vector2::new(1, -1));
        self.call(BackendCall::DrawText { text: *text, param: trans })
    }

    /// Draws `image` so that it stands on the world position `pos`: the backend is asked
    /// to draw it at `(pos.x, pos.y + image.height)`, mirrored vertically and unscaled
    /// horizontally. The result is the backend's answer.
    pub fn draw_image(&mut self, image: &Image, pos: Vector2) -> (r: Result<(), E>)
        requires
            old(self).wf(),
        ensures
            final(self).wf(),
            final(self).asked(
                *old(self),
                BackendCall::DrawImage {
                    image: *image,
                    param: DrawParam {
                        dest: Point2 { x: pos.x as i64, y: (pos.y + image.height) as i64 },
                        scale: Vector2 { x: 1, y: -1i32 },
                    },
                },
                r,
            ),
    {
        let trans = DrawParam::new().dest(pos.flipped_dest(image.height as u32)).scale(
            Vector2::new(1, -1),
        );
        self.call(BackendCall::DrawImage { image: *image, param: trans })
    }

    /// Draws `mesh` with the placement `dp` as it is given: nothing is flipped or moved.
    /// The result is the backend's answer.
    pub fn draw_mesh(&mut self, mesh: &Mesh, dp: DrawParam) -> (r: Result<(), E>)
        requires
            old(self).wf(),
        ensures
            final(self).wf(),
            final(self).asked(*old(self), BackendCall::DrawMesh { mesh: *mesh, param: dp }, r),
    {
        self.call(BackendCall::DrawMesh { mesh: *mesh, param: dp })
    }

    /// What drawing a batch of `primitives` comes to, from the context `before` to this one
    /// with the result `r`. An empty batch calls nothing and succeeds. Any other is built
    /// once; if that fails, the failure is `r` and nothing is drawn; if it works, the mesh is
    /// drawn once with the identity placement and `r` is the answer to that.
    pub open spec fn batched(
        self,
        before: Self,
        primitives: Seq<PrimitiveView>,
        r: Result<(), E>,
    ) -> bool {
        if primitives.len() == 0 {
            r is Ok && self.continues(before, Seq::empty())
        } else {
            exists|builder: MeshBuilder, built: Result<(), E>|
                {
                    &&& builder@ == primitives
                    &&& #[trigger] call_ensures(
                        before.backend(),
                        (BackendCall::BuildMesh { builder },),
                        built,
                    )
                    &&& built is Err ==> r == built && self.continues(
                        before,
                        seq![BackendCallView::BuildMesh { primitives }],
                    )
                    &&& built is Ok ==> call_ensures(
                        before.backend(),
                        (BackendCall::DrawBuiltMesh { param: DrawParam::identity() },),
                        r,
                    ) && self.continues(
                        before,
                        seq![
                            BackendCallView::BuildMesh { primitives },
                            BackendCallView::DrawBuiltMesh { param: DrawParam::identity() },
                        ],
                    )
                }
        }
    }

    /// A batch without primitives succeeds and calls nothing on the backend: no mesh is
    /// built and nothing is drawn.
    pub proof fn lemma_empty_batch_calls_nothing(self, before: Self, r: Result<(), E>)
        requires
            self.batched(before, Seq::empty(), r),
        ensures
            r is Ok,
            self.calls() == before.calls(),
            builds(self.calls()) == builds(before.calls()),
            draws(self.calls()) == draws(before.calls()),
    {
    }

    /// A batch with at least one primitive builds exactly one mesh, from just these
    /// primitives, as its first call. Where the batch succeeds it also draws exactly once,
    /// as its last call, with the identity placement, which is at the origin. It never draws
    /// more than once, and draws nothing where building failed.
    pub proof fn lemma_batch_builds_once(
        self,
        before: Self,
        primitives: Seq<PrimitiveView>,
        r: Result<(), E>,
    )
        requires
            primitives.len() > 0,
            self.batched(before, primitives, r),
        ensures
            builds(self.calls()) == builds(before.calls()) + 1,
            self.calls().len() > before.calls().len(),
            self.calls()[before.calls().len() as int] == (BackendCallView::BuildMesh {
                primitives,
            }),
            draws(self.calls()) == draws(before.calls()) || draws(self.calls()) == draws(
                before.calls(),
            ) + 1,
            draws(self.calls()) == draws(before.calls()) ==> r is Err,
            r is Ok ==> draws(self.calls()) == draws(before.calls()) + 1,
            draws(self.calls()) == draws(before.calls()) + 1 ==> self.calls().last() == (
                BackendCallView::DrawBuiltMesh { param: DrawParam::identity() }),
            DrawParam::identity().dest == (Point2 { x: 0, y: 0 }),
    {
        let build = BackendCallView::BuildMesh { primitives };
        let draw = BackendCallView::DrawBuiltMesh { param: DrawParam::identity() };
        lemma_counts_push(before.calls(), build);
        lemma_counts_push(before.calls().push(build), draw);
        assert(before.calls() + seq![build] =~= before.calls().push(build));
        assert(before.calls() + seq![build, draw] =~= before.calls().push(build).push(draw));
    }

    /// Ends the frame: hands back the camera and the backend.
    pub fn release(self) -> (parts: (CameraHandler, B))
        ensures
            parts.0 == self.camera(),
            parts.1 == self.backend(),
    {
        (self.cam, self.ctx)
    }

    /// Builds and draws what `sr` has collected. With nothing collected the backend is not
    /// called and the result is success. Otherwise the buffer is built into one mesh; a
    /// failure of that is returned and nothing is drawn; after a success the mesh is drawn
    /// once at the origin, and the result is the answer to the draw.
    pub fn draw_batch(&mut self, sr: ShapeRenderer) -> (r: Result<(), E>)
        requires
            old(self).wf(),
        ensures
            final(self).wf(),
            final(self).batched(*old(self), sr@.primitives, r),
    {
        if sr.is_empty() {
            return Ok(());
        }
        let builder = sr.into_mesh_builder();
        let ghost primitives = builder@;
        let built = self.call(BackendCall::BuildMesh { builder });
        match built {
            Err(e) => Err(e),
            Ok(()) => {
                let at_origin = DrawParam::new().dest(Point2::origin());
                let r = self.call(BackendCall::DrawBuiltMesh { param: at_origin });
                assert(self.calls() =~= old(self).calls() + seq![
                    BackendCallView::BuildMesh { primitives },
                    BackendCallView::DrawBuiltMesh { param: DrawParam::identity() },
                ]);
                r
            },
        }
    }

    /// Draws the shapes that `f` adds, as one mesh. `f` is run once, on a new renderer whose
    /// region is the camera's box expanded; what it has added is then built and drawn as
    /// [`RenderContext::draw_batch`] says.
    pub fn shape_render<F: FnOnce(&mut ShapeRenderer)>(&mut self, f: F) -> (r: Result<(), E>)
        requires
            old(self).wf(),
            forall|sr: &mut ShapeRenderer|
                (*sr)@ == fresh(expanded(old(self).camera().screen_box)) ==> call_requires(
                    f,
                    (sr,),
                ),
        ensures
            final(self).wf(),
            exists|sr: &mut ShapeRenderer|
                {
                    &&& (*sr)@ == fresh(expanded(old(self).camera().screen_box))
                    &&& #[trigger] call_ensures(f, (sr,), ())
                    &&& final(self).batched(*old(self), (*final(sr))@.primitives, r)
                },
    {
        let rect = self.cam.get_screen_box().expand();
        let mut sr = ShapeRenderer::new(rect);
        f(&mut sr);
        self.draw_batch(sr)
    }
}

} // verus!
