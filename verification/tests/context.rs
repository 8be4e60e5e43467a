use render_context::backend::BackendCall;
use render_context::camera_handler::CameraHandler;
use render_context::geometry::Point2;
use render_context::geometry::Rect;
use render_context::geometry::Vector2;
use render_context::geometry::VisibleRect;
use render_context::graphics::Color;
use render_context::graphics::DrawMode;
use render_context::graphics::DrawParam;
use render_context::graphics::Image;
use render_context::graphics::Mesh;
use render_context::graphics::Primitive;
use render_context::graphics::Text;
use render_context::render_context::RenderContext;
use render_context::shape_render::ShapeRenderer;
use std::cell::Cell;

fn camera() -> CameraHandler {
    CameraHandler::new(Rect::new(0, 0, 800, 600))
}

fn flipped(x: i64, y: i64) -> DrawParam {
    DrawParam { dest: Point2 { x, y }, scale: Vector2 { x: 1, y: -1 } }
}

fn at_origin() -> DrawParam {
    DrawParam { dest: Point2 { x: 0, y: 0 }, scale: Vector2 { x: 1, y: 1 } }
}

fn one_circle(sr: &mut ShapeRenderer) {
    sr.circle(Vector2::new(400, 300), 25);
}

fn nothing(_sr: &mut ShapeRenderer) {
}

fn only_degenerate_shapes(sr: &mut ShapeRenderer) {
    let _ = sr.polygon(vec![Vector2::new(0, 0)]);
    let _ = sr.line(vec![], 2);
}

fn the_circle() -> Primitive {
    Primitive::Circle {
        mode: DrawMode::Fill,
        center: Vector2 { x: 400, y: 300 },
        radius: 25,
        color: Color::white(),
    }
}

fn built(call: &BackendCall) -> Vec<Primitive> {
    match call {
        BackendCall::BuildMesh { builder } => {
            let mut primitives = Vec::new();
            let mut i = 0;
            while let Some(p) = builder.get(i) {
                primitives.push(p.clone());
                i += 1;
            }
            assert_eq!(primitives.len(), builder.len());
            primitives
        }
        other => panic!("not a build: {:?}", other),
    }
}

#[test]
fn draw_param_starts_as_identity() {
    assert_eq!(DrawParam::new(), at_origin());
    assert_eq!(DrawParam::new().dest(Point2::new(3, 4)).scale(Vector2::new(1, -1)), flipped(3, 4));
    assert_eq!(DrawParam::new().scale(Vector2::new(2, 3)).dest(Point2::new(-1, -2)), DrawParam {
        dest: Point2 { x: -1, y: -2 },
        scale: Vector2 { x: 2, y: 3 },
    });
}

#[test]
fn camera_shows_the_box_it_was_given() {
    let mut cam = camera();
    assert_eq!(cam.get_screen_box(), Rect { x: 0, y: 0, w: 800, h: 600 });
    cam.set_screen_box(Rect::new(-10, 20, 30, 40));
    assert_eq!(cam.get_screen_box(), Rect { x: -10, y: 20, w: 30, h: 40 });
}

#[test]
fn clear_overwrites_with_black() {
    let mut log: Vec<BackendCall> = Vec::new();
    let mut rc = RenderContext::new(camera(), |call| {
        log.push(call);
        Ok::<(), String>(())
    });
    rc.clear();
    assert_eq!(log, vec![BackendCall::Clear { color: Color { r: 0, g: 0, b: 0, a: 255 } }]);
}

#[test]
fn clear_twice_asks_for_the_same_clear_twice() {
    let mut log: Vec<BackendCall> = Vec::new();
    let mut rc = RenderContext::new(camera(), |call| {
        log.push(call);
        Ok::<(), String>(())
    });
    let text = Text { handle: 1, height: 10 };
    assert_eq!(rc.draw_text(&text, Vector2::new(0, 0)), Ok(()));
    rc.clear();
    rc.clear();
    assert_eq!(log.len(), 3);
    assert_eq!(log[1], BackendCall::Clear { color: Color::black() });
    assert_eq!(log[2], log[1]);
}

#[test]
fn clear_reports_nothing_when_the_backend_fails() {
    let calls = Cell::new(0);
    let mut rc = RenderContext::new(camera(), |_call| {
        calls.set(calls.get() + 1);
        Err::<(), String>(String::from("lost device"))
    });
    rc.clear();
    assert_eq!(calls.get(), 1);
}

#[test]
fn draw_text_is_placed_above_its_position_and_flipped() {
    let mut log: Vec<BackendCall> = Vec::new();
    let mut rc = RenderContext::new(camera(), |call| {
        log.push(call);
        Ok::<(), String>(())
    });
    let text = Text { handle: 7, height: 20 };
    assert_eq!(rc.draw_text(&text, Vector2::new(5, -7)), Ok(()));
    assert_eq!(rc.draw_text(&text, Vector2::new(-100, 250)), Ok(()));
    assert_eq!(log, vec![
        BackendCall::DrawText { text, param: flipped(5, 13) },
        BackendCall::DrawText { text, param: flipped(-100, 270) },
    ]);
}

#[test]
fn draw_image_is_placed_above_its_position_and_flipped() {
    let mut log: Vec<BackendCall> = Vec::new();
    let mut rc = RenderContext::new(camera(), |call| {
        log.push(call);
        Ok::<(), String>(())
    });
    let image = Image { handle: 3, height: 64 };
    assert_eq!(rc.draw_image(&image, Vector2::new(10, 20)), Ok(()));
    let tall = Image { handle: 4, height: u16::MAX };
    assert_eq!(rc.draw_image(&tall, Vector2::new(i32::MAX, i32::MAX)), Ok(()));
    assert_eq!(log, vec![
        BackendCall::DrawImage { image, param: flipped(10, 84) },
        BackendCall::DrawImage { image: tall, param: flipped(2147483647, 2147483647 + 65535) },
    ]);
}

#[test]
fn draw_text_of_any_height_at_the_top_of_the_grid() {
    let mut log: Vec<BackendCall> = Vec::new();
    let mut rc = RenderContext::new(camera(), |call| {
        log.push(call);
        Ok::<(), String>(())
    });
    let text = Text { handle: 0, height: u32::MAX };
    assert_eq!(rc.draw_text(&text, Vector2::new(0, i32::MAX)), Ok(()));
    assert_eq!(log, vec![BackendCall::DrawText { text, param: flipped(0, 2147483647 + 4294967295) }]);
}

#[test]
fn draw_mesh_passes_the_placement_on_untouched() {
    let mut log: Vec<BackendCall> = Vec::new();
    let mut rc = RenderContext::new(camera(), |call| {
        log.push(call);
        Ok::<(), String>(())
    });
    let mesh = Mesh { handle: 11 };
    let dp = DrawParam { dest: Point2 { x: 9, y: -9 }, scale: Vector2 { x: 3, y: 2 } };
    assert_eq!(rc.draw_mesh(&mesh, dp), Ok(()));
    assert_eq!(log, vec![BackendCall::DrawMesh { mesh, param: dp }]);
}

#[test]
fn draw_failures_come_back_unchanged() {
    let mut rc = RenderContext::new(camera(), |call| match call {
        BackendCall::DrawText { .. } => Err(String::from("text failed")),
        BackendCall::DrawImage { .. } => Err(String::from("image failed")),
        BackendCall::DrawMesh { .. } => Err(String::from("mesh failed")),
        _ => Ok(()),
    });
    let text = Text { handle: 1, height: 1 };
    let image = Image { handle: 2, height: 2 };
    let mesh = Mesh { handle: 3 };
    assert_eq!(rc.draw_text(&text, Vector2::new(0, 0)), Err(String::from("text failed")));
    assert_eq!(rc.draw_image(&image, Vector2::new(0, 0)), Err(String::from("image failed")));
    assert_eq!(rc.draw_mesh(&mesh, DrawParam::new()), Err(String::from("mesh failed")));
}

#[test]
fn shape_render_hands_the_expanded_camera_box_to_the_callback() {
    let seen = Cell::new(None);
    let mut rc = RenderContext::new(camera(), |_call| Ok::<(), String>(()));
    let r = rc.shape_render(|sr: &mut ShapeRenderer| {
        seen.set(Some((sr.screen_box(), sr.color(), sr.mode(), sr.is_empty())));
    });
    assert_eq!(r, Ok(()));
    assert_eq!(
        seen.get(),
        Some((VisibleRect { x: -500, y: -500, w: 9800, h: 7600 }, Color::white(), DrawMode::Fill, true))
    );
}

#[test]
fn shape_render_follows_the_camera() {
    let seen = Cell::new(None);
    let mut rc = RenderContext::new(camera(), |_call| Ok::<(), String>(()));
    rc.cam.set_screen_box(Rect::new(100, -200, 1000, 500));
    let r = rc.shape_render(|sr: &mut ShapeRenderer| seen.set(Some(sr.screen_box())));
    assert_eq!(r, Ok(()));
    assert_eq!(seen.get(), Some(VisibleRect { x: 600, y: -2700, w: 12000, h: 6500 }));
}

#[test]
fn shape_render_of_one_circle_builds_once_and_draws_once_at_the_origin() {
    let mut log: Vec<BackendCall> = Vec::new();
    let mut rc = RenderContext::new(camera(), |call| {
        log.push(call);
        Ok::<(), String>(())
    });
    assert_eq!(rc.shape_render(one_circle), Ok(()));
    assert_eq!(log.len(), 2);
    assert_eq!(built(&log[0]), vec![the_circle()]);
    assert_eq!(log[1], BackendCall::DrawBuiltMesh { param: at_origin() });
}

#[test]
fn shape_render_without_primitives_calls_nothing_and_succeeds() {
    let calls = Cell::new(0);
    let mut rc = RenderContext::new(camera(), |_call| {
        calls.set(calls.get() + 1);
        Err::<(), String>(String::from("must not be asked"))
    });
    assert_eq!(rc.shape_render(nothing), Ok(()));
    assert_eq!(rc.shape_render(only_degenerate_shapes), Ok(()));
    assert_eq!(calls.get(), 0);
}

#[test]
fn shape_render_keeps_the_order_of_the_primitives() {
    let mut log: Vec<BackendCall> = Vec::new();
    let mut rc = RenderContext::new(camera(), |call| {
        log.push(call);
        Ok::<(), String>(())
    });
    let r = rc.shape_render(|sr: &mut ShapeRenderer| {
        sr.circle(Vector2::new(400, 300), 25);
        sr.set_color(Color::from_rgb(9, 8, 7));
        let _ = sr.line(vec![Vector2::new(0, 0), Vector2::new(1, 1)], 2);
    });
    assert_eq!(r, Ok(()));
    assert_eq!(log.len(), 2);
    assert_eq!(built(&log[0]), vec![
        the_circle(),
        Primitive::Line {
            points: vec![Vector2 { x: 0, y: 0 }, Vector2 { x: 1, y: 1 }],
            width: 2,
            color: Color { r: 9, g: 8, b: 7, a: 255 },
        },
    ]);
}

#[test]
fn shape_render_does_not_draw_what_could_not_be_built() {
    let mut log: Vec<BackendCall> = Vec::new();
    let mut rc = RenderContext::new(camera(), |call| {
        let build = matches!(call, BackendCall::BuildMesh { .. });
        log.push(call);
        if build {
            Err(String::from("build failed"))
        } else {
            Ok(())
        }
    });
    assert_eq!(rc.shape_render(one_circle), Err(String::from("build failed")));
    assert_eq!(log.len(), 1);
    assert_eq!(built(&log[0]), vec![the_circle()]);
}

#[test]
fn shape_render_reports_a_failed_draw() {
    let mut log: Vec<BackendCall> = Vec::new();
    let mut rc = RenderContext::new(camera(), |call| {
        let draw = matches!(call, BackendCall::DrawBuiltMesh { .. });
        log.push(call);
        if draw {
            Err(String::from("draw failed"))
        } else {
            Ok(())
        }
    });
    assert_eq!(rc.shape_render(one_circle), Err(String::from("draw failed")));
    assert_eq!(log.len(), 2);
}

#[test]
fn draw_batch_of_a_filled_renderer() {
    let mut log: Vec<BackendCall> = Vec::new();
    let mut rc = RenderContext::new(camera(), |call| {
        log.push(call);
        Ok::<(), String>(())
    });
    let mut sr = ShapeRenderer::new(VisibleRect { x: 0, y: 0, w: 1, h: 1 });
    assert_eq!(rc.draw_batch(ShapeRenderer::new(VisibleRect { x: 0, y: 0, w: 1, h: 1 })), Ok(()));
    one_circle(&mut sr);
    assert_eq!(rc.draw_batch(sr), Ok(()));
    assert_eq!(log.len(), 2);
    assert_eq!(built(&log[0]), vec![the_circle()]);
    assert_eq!(log[1], BackendCall::DrawBuiltMesh { param: at_origin() });
}

#[test]
fn release_hands_back_camera_and_backend() {
    let mut rc = RenderContext::new(camera(), |_call: BackendCall| Ok::<(), String>(()));
    rc.cam.set_screen_box(Rect::new(1, 2, 3, 4));
    let (cam, mut backend) = rc.release();
    assert_eq!(cam, CameraHandler { screen_box: Rect { x: 1, y: 2, w: 3, h: 4 } });
    assert_eq!(backend(BackendCall::Clear { color: Color::white() }), Ok(()));
}

#[test]
fn cam_reads_the_camera_of_the_frame() {
    let mut rc = RenderContext::new(camera(), |_call: BackendCall| Ok::<(), String>(()));
    assert_eq!(rc.cam().get_screen_box(), Rect { x: 0, y: 0, w: 800, h: 600 });
    rc.set_cam(CameraHandler::new(Rect::new(10, 20, 30, 40)));
    assert_eq!(*rc.cam(), CameraHandler { screen_box: Rect { x: 10, y: 20, w: 30, h: 40 } });
}

#[test]
fn set_cam_calls_nothing_and_moves_the_visible_region() {
    let calls = Cell::new(0);
    let seen = Cell::new(None);
    let mut rc = RenderContext::new(camera(), |_call| {
        calls.set(calls.get() + 1);
        Ok::<(), String>(())
    });
    rc.set_cam(CameraHandler::new(Rect::new(10, 20, 30, 40)));
    assert_eq!(calls.get(), 0);
    let r = rc.shape_render(|sr: &mut ShapeRenderer| seen.set(Some(sr.screen_box())));
    assert_eq!(r, Ok(()));
    assert_eq!(seen.get(), Some(VisibleRect { x: -390, y: -280, w: 1330, h: 1440 }));
    assert_eq!(calls.get(), 0);
}
