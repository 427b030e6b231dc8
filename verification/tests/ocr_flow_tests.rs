use base64::Engine;
use image::{DynamicImage, ImageFormat, Rgb, RgbImage};
use lexicog::crop::{crop_and_convert, CropError};
use lexicog::ocr_flow::{
    text_is_blank, BuiltinOutcome, ModelOutcome, OcrAction, OcrError, OcrEvent, OcrFlow, OcrRequest,
};

fn screenshot() -> Vec<u8> {
    let img = RgbImage::from_fn(8, 8, |x, y| Rgb([x as u8 * 20, y as u8 * 20, 7]));
    let mut cursor = std::io::Cursor::new(Vec::new());
    DynamicImage::ImageRgb8(img)
        .write_to(&mut cursor, ImageFormat::Png)
        .unwrap();
    cursor.into_inner()
}

fn request(builtin_first: bool) -> OcrRequest {
    OcrRequest {
        image: screenshot(),
        offset_x: 1,
        offset_y: 1,
        width: 4,
        height: 3,
        prompt: "read the text".to_string(),
        builtin_first,
    }
}

fn expected_png() -> Vec<u8> {
    crop_and_convert(screenshot(), 1, 1, 4, 3).unwrap()
}

#[test]
fn start_without_builtin_asks_for_model() {
    let (flow, action) = OcrFlow::start(request(false));
    assert!(matches!(action, OcrAction::LoadModelConfig));
    assert!(!flow.is_done());
}

#[test]
fn start_with_builtin_runs_recognizer_on_crop() {
    let (_flow, action) = OcrFlow::start(request(true));
    match action {
        OcrAction::RunBuiltin { png } => assert_eq!(png, expected_png()),
        _ => panic!("expected the recognizer to run"),
    }
}

#[test]
fn start_with_bad_selection_finishes() {
    let mut req = request(true);
    req.width = 0;
    let (flow, action) = OcrFlow::start(req);
    assert!(flow.is_done());
    assert!(matches!(
        action,
        OcrAction::Finish { release: None, outcome: Err(OcrError::Crop(CropError::EmptyRegion)) }
    ));
}

#[test]
fn start_with_undecodable_image_finishes() {
    let mut req = request(false);
    req.image = vec![0, 1, 2];
    let (_flow, action) = OcrFlow::start(req);
    assert!(matches!(
        action,
        OcrAction::Finish { release: None, outcome: Err(OcrError::Crop(CropError::Decode(_))) }
    ));
}

#[test]
fn builtin_text_is_sent_and_request_ends() {
    let (mut flow, _) = OcrFlow::start(request(true));
    let a = flow.step(OcrEvent::BuiltinDone(BuiltinOutcome::Recognized("Hello".to_string())));
    match a {
        OcrAction::SendText { text } => assert_eq!(text, "Hello"),
        _ => panic!("expected the text to be sent"),
    }
    assert!(matches!(flow.step(OcrEvent::Delivered(Ok(()))), OcrAction::SendEnd));
    assert!(matches!(
        flow.step(OcrEvent::Delivered(Ok(()))),
        OcrAction::Finish { release: None, outcome: Ok(()) }
    ));
    assert!(flow.is_done());
}

#[test]
fn builtin_send_failure_is_reported() {
    let (mut flow, _) = OcrFlow::start(request(true));
    flow.step(OcrEvent::BuiltinDone(BuiltinOutcome::Recognized("Hi".to_string())));
    match flow.step(OcrEvent::Delivered(Err("closed".to_string()))) {
        OcrAction::Finish { release: None, outcome: Err(OcrError::SendText(m)) } => {
            assert_eq!(m, "closed")
        }
        _ => panic!("expected a send failure"),
    }
}

#[test]
fn builtin_end_signal_failure_is_reported() {
    let (mut flow, _) = OcrFlow::start(request(true));
    flow.step(OcrEvent::BuiltinDone(BuiltinOutcome::Recognized("Hi".to_string())));
    flow.step(OcrEvent::Delivered(Ok(())));
    assert!(matches!(
        flow.step(OcrEvent::Delivered(Err("gone".to_string()))),
        OcrAction::Finish { release: None, outcome: Err(OcrError::SendEnd(_)) }
    ));
}

#[test]
fn blank_builtin_text_falls_back_to_model() {
    let (mut flow, _) = OcrFlow::start(request(true));
    let a = flow.step(OcrEvent::BuiltinDone(BuiltinOutcome::Recognized(" \n\t ".to_string())));
    assert!(matches!(a, OcrAction::LoadModelConfig));
}

#[test]
fn builtin_failure_falls_back_to_model() {
    let (mut flow, _) = OcrFlow::start(request(true));
    let a = flow.step(OcrEvent::BuiltinDone(BuiltinOutcome::Failed("no text".to_string())));
    assert!(matches!(a, OcrAction::LoadModelConfig));
    let (mut flow, _) = OcrFlow::start(request(true));
    let a = flow.step(OcrEvent::BuiltinDone(BuiltinOutcome::ReplyLost("dropped".to_string())));
    assert!(matches!(a, OcrAction::LoadModelConfig));
}

#[test]
fn builtin_dispatch_failure_ends_request() {
    let (mut flow, _) = OcrFlow::start(request(true));
    let a = flow.step(OcrEvent::BuiltinDone(BuiltinOutcome::DispatchFailed("busy".to_string())));
    assert!(matches!(
        a,
        OcrAction::Finish { release: None, outcome: Err(OcrError::BuiltinDispatch(_)) }
    ));
    assert!(flow.is_done());
}

#[test]
fn missing_model_ends_request_without_task() {
    let (mut flow, _) = OcrFlow::start(request(false));
    assert!(matches!(
        flow.step(OcrEvent::ModelConfig(None)),
        OcrAction::Finish { release: None, outcome: Err(OcrError::NoModel) }
    ));
}

fn run_to_model(flow: &mut OcrFlow) -> OcrAction {
    assert!(matches!(
        flow.step(OcrEvent::ModelConfig(Some("vision-1".to_string()))),
        OcrAction::IssueTaskId
    ));
    match flow.step(OcrEvent::TaskIdIssued("task-7".to_string())) {
        OcrAction::RegisterAndAnnounce { task_id } => assert_eq!(task_id, "task-7"),
        _ => panic!("expected registration"),
    }
    flow.step(OcrEvent::Announced(Ok(())))
}

#[test]
fn model_run_gets_prompt_image_and_model() {
    let (mut flow, _) = OcrFlow::start(request(false));
    match run_to_model(&mut flow) {
        OcrAction::RunModel { prompt, image_base64, model_id } => {
            assert_eq!(prompt, "read the text");
            assert_eq!(model_id, "vision-1");
            let expected = base64::engine::general_purpose::STANDARD.encode(expected_png());
            assert_eq!(image_base64, expected);
        }
        _ => panic!("expected the model to run"),
    }
}

#[test]
fn model_completion_releases_task() {
    let (mut flow, _) = OcrFlow::start(request(false));
    run_to_model(&mut flow);
    match flow.step(OcrEvent::ModelDone(ModelOutcome::Completed)) {
        OcrAction::Finish { release: Some(t), outcome: Ok(()) } => assert_eq!(t, "task-7"),
        _ => panic!("expected success"),
    }
}

#[test]
fn cancellation_releases_task() {
    let (mut flow, _) = OcrFlow::start(request(false));
    run_to_model(&mut flow);
    match flow.step(OcrEvent::ModelDone(ModelOutcome::Cancelled)) {
        OcrAction::Finish { release: Some(t), outcome: Err(OcrError::Cancelled) } => {
            assert_eq!(t, "task-7")
        }
        _ => panic!("expected cancellation"),
    }
}

#[test]
fn missing_client_and_failure_release_task() {
    let (mut flow, _) = OcrFlow::start(request(false));
    run_to_model(&mut flow);
    assert!(matches!(
        flow.step(OcrEvent::ModelDone(ModelOutcome::NoClient)),
        OcrAction::Finish { release: Some(_), outcome: Err(OcrError::NoClient) }
    ));
    let (mut flow, _) = OcrFlow::start(request(false));
    run_to_model(&mut flow);
    match flow.step(OcrEvent::ModelDone(ModelOutcome::Failed("timeout".to_string()))) {
        OcrAction::Finish { release: Some(_), outcome: Err(OcrError::ModelFailed(m)) } => {
            assert_eq!(m, "timeout")
        }
        _ => panic!("expected failure"),
    }
}

#[test]
fn announce_failure_ends_without_release() {
    let (mut flow, _) = OcrFlow::start(request(false));
    flow.step(OcrEvent::ModelConfig(Some("m".to_string())));
    flow.step(OcrEvent::TaskIdIssued("t".to_string()));
    assert!(matches!(
        flow.step(OcrEvent::Announced(Err("no window".to_string()))),
        OcrAction::Finish { release: None, outcome: Err(OcrError::Announce(_)) }
    ));
}

#[test]
fn unexpected_event_is_ignored() {
    let (mut flow, _) = OcrFlow::start(request(false));
    assert!(matches!(flow.step(OcrEvent::Delivered(Ok(()))), OcrAction::Ignore));
    assert!(matches!(flow.step(OcrEvent::ModelConfig(None)), OcrAction::Finish { .. }));
    assert!(matches!(flow.step(OcrEvent::ModelConfig(None)), OcrAction::Ignore));
    assert!(flow.is_done());
}

#[test]
fn blank_text_detection() {
    assert!(text_is_blank(&String::new()));
    assert!(text_is_blank(&" \t\r\n\u{a0}\u{3000}".to_string()));
    assert!(!text_is_blank(&"  x ".to_string()));
    assert!(!text_is_blank(&"越".to_string()));
}

#[test]
fn blank_text_covers_all_unicode_spaces() {
    let spaces = "\u{9}\u{a}\u{b}\u{c}\u{d}\u{20}\u{85}\u{a0}\u{1680}\u{2000}\u{2005}\u{200a}\u{2028}\u{2029}\u{202f}\u{205f}\u{3000}";
    assert!(text_is_blank(&spaces.to_string()));
    assert!(!text_is_blank(&"\u{200b}".to_string()));
    assert!(!text_is_blank(&"\u{180e}".to_string()));
}
