use modal_editor::render::{
    clear_color, render, AcquireOutcome, Color, DrawCommand, FrameResult, RenderError, RenderPass,
};
use modal_editor::state::UIGraphicsState;
use modal_editor::surface::{SurfaceCaps, SurfaceFormat};
use modal_editor::text::{CustomText, DEFAULT_TEXT_SCALE};

fn caps_800x600() -> SurfaceCaps {
    SurfaceCaps {
        formats: vec![
            SurfaceFormat { code: 10, srgb: false },
            SurfaceFormat { code: 11, srgb: true },
        ],
        present_modes: vec![0, 1],
        alpha_modes: vec![2],
    }
}

fn texts_of(pass: &RenderPass) -> Vec<(String, u32)> {
    pass.commands
        .iter()
        .map(|c| match c {
            DrawCommand::Text(s) => (s.text.clone(), s.scale),
        })
        .collect()
}

#[test]
fn clear_color_is_dark_desaturated_blue() {
    assert_eq!(clear_color(), Color { r: 100, g: 200, b: 300, a: 1000 });
}

#[test]
fn acquired_presents_one_whole_frame() {
    let st = UIGraphicsState::new(&caps_800x600(), 800, 600);
    let mut overlay = CustomText::new(&st);
    overlay.write("foo");
    overlay.write("bar");
    match render(&st, AcquireOutcome::Acquired, &mut overlay) {
        Ok(FrameResult::Presented(pass)) => {
            assert_eq!(pass.clear, Color { r: 100, g: 200, b: 300, a: 1000 });
            assert_eq!(
                texts_of(&pass),
                vec![
                    ("foo".to_string(), DEFAULT_TEXT_SCALE),
                    ("bar".to_string(), DEFAULT_TEXT_SCALE)
                ]
            );
        }
        other => panic!("expected a presented frame, got {:?}", other),
    }
}

#[test]
fn timeout_skips_without_error() {
    let st = UIGraphicsState::new(&caps_800x600(), 800, 600);
    let mut overlay = CustomText::new(&st);
    overlay.write("foo");
    match render(&st, AcquireOutcome::Timeout, &mut overlay) {
        Ok(FrameResult::SkippedRetry) => {}
        other => panic!("expected a skipped frame, got {:?}", other),
    }
    // nothing was consumed: the next frame still paints everything
    match render(&st, AcquireOutcome::Acquired, &mut overlay) {
        Ok(FrameResult::Presented(pass)) => assert_eq!(pass.commands.len(), 1),
        other => panic!("expected a presented frame, got {:?}", other),
    }
}

#[test]
fn outdated_reconfigures_and_skips_repeatedly_then_presents() {
    let st = UIGraphicsState::new(&caps_800x600(), 800, 600);
    let mut overlay = CustomText::new(&st);
    overlay.write("foo");
    for _ in 0..3 {
        match render(&st, AcquireOutcome::Outdated, &mut overlay) {
            Ok(FrameResult::SkippedReconfigured(c)) => assert_eq!(c, st.config()),
            other => panic!("expected reconfigure-and-skip, got {:?}", other),
        }
    }
    match render(&st, AcquireOutcome::Acquired, &mut overlay) {
        Ok(FrameResult::Presented(pass)) => assert_eq!(pass.commands.len(), 1),
        other => panic!("expected a presented frame, got {:?}", other),
    }
}

#[test]
fn lost_reconfigures_and_skips() {
    let st = UIGraphicsState::new(&caps_800x600(), 800, 600);
    let mut overlay = CustomText::new(&st);
    match render(&st, AcquireOutcome::Lost, &mut overlay) {
        Ok(FrameResult::SkippedReconfigured(c)) => assert_eq!(c, st.config()),
        other => panic!("expected reconfigure-and-skip, got {:?}", other),
    }
}

#[test]
fn out_of_memory_is_fatal() {
    let st = UIGraphicsState::new(&caps_800x600(), 800, 600);
    let mut overlay = CustomText::new(&st);
    match render(&st, AcquireOutcome::OutOfMemory, &mut overlay) {
        Err(RenderError::OutOfMemory) => {}
        other => panic!("expected the fatal error, got {:?}", other),
    }
}

#[test]
fn drawables_paint_in_insertion_order() {
    let st = UIGraphicsState::new(&caps_800x600(), 800, 600);
    let mut a = CustomText::new(&st);
    a.write("a1");
    a.write("a2");
    let mut b = CustomText::new(&st);
    b.write("b");
    let mut c = CustomText::new(&st);
    c.write("c");
    let mut drawables = vec![a, b, c];
    match render(&st, AcquireOutcome::Acquired, &mut drawables) {
        Ok(FrameResult::Presented(pass)) => {
            let texts: Vec<String> = texts_of(&pass).into_iter().map(|t| t.0).collect();
            assert_eq!(texts, vec!["a1", "a2", "b", "c"]);
        }
        other => panic!("expected a presented frame, got {:?}", other),
    }
}

#[test]
fn end_to_end_scenario() {
    // a context for an 800x600 window
    let caps = caps_800x600();
    let st = UIGraphicsState::new(&caps, 800, 600);
    let config_before = st.config();
    assert_eq!(config_before.width, 800);
    assert_eq!(config_before.height, 600);

    // render with an empty drawable set: a frame filled with the clear color
    let mut empty: Vec<CustomText> = Vec::new();
    match render(&st, AcquireOutcome::Acquired, &mut empty) {
        Ok(FrameResult::Presented(pass)) => {
            assert_eq!(pass.clear, Color { r: 100, g: 200, b: 300, a: 1000 });
            assert!(pass.commands.is_empty());
        }
        other => panic!("expected a presented frame, got {:?}", other),
    }

    // add a text overlay and render again: same background plus the text
    let mut overlay = CustomText::new(&st);
    overlay.write("Some word");
    match render(&st, AcquireOutcome::Acquired, &mut overlay) {
        Ok(FrameResult::Presented(pass)) => {
            assert_eq!(pass.clear, Color { r: 100, g: 200, b: 300, a: 1000 });
            assert_eq!(texts_of(&pass), vec![("Some word".to_string(), DEFAULT_TEXT_SCALE)]);
        }
        other => panic!("expected a presented frame, got {:?}", other),
    }

    // the surface configuration did not change
    assert_eq!(st.config(), config_before);
}
