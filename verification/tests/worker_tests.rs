use scrcap::capture::CapturedFrame;
use scrcap::errors::CaptureError;
use scrcap::formats::{ColorType, FrameDescription, FrameFormat};
use scrcap::geometry::{Output, Region};
use scrcap::shm::{shm_step, ShmEvent, ShmPhase};
use scrcap::worker::{output_names, plan_command, plan_window_capture, Command, WorkerAction};

fn outputs_two() -> Vec<Output> {
    vec![
        Output { name: String::from("DP-1"), x: 0, y: 0, width: 1920, height: 1080, scale: 1 },
        Output { name: String::from("eDP-1"), x: 1920, y: 0, width: 1280, height: 800, scale: 1 },
    ]
}

#[test]
fn output_names_preserve_discovery_order() {
    let names = output_names(&outputs_two());
    assert_eq!(names, vec![String::from("DP-1"), String::from("eDP-1")]);
}

#[test]
fn list_outputs_replies_with_names() {
    let action = plan_command(Command::ListOutputs, &outputs_two()).unwrap();
    match action {
        WorkerAction::SendOutputs(names) => {
            assert_eq!(names, vec![String::from("DP-1"), String::from("eDP-1")])
        }
        _ => panic!("expected an output listing"),
    }
}

#[test]
fn capture_screen_targets_first_output() {
    let action = plan_command(Command::CaptureScreen(String::from("ignored")), &outputs_two())
        .unwrap();
    match action {
        WorkerAction::CaptureOutput(o) => assert_eq!(o.name, "DP-1"),
        _ => panic!("expected a capture action"),
    }
}

#[test]
fn capture_screen_with_no_outputs_fails_not_found() {
    let none: Vec<Output> = Vec::new();
    let r = plan_command(Command::CaptureScreen(String::from("DP-1")), &none);
    assert!(matches!(r, Err(CaptureError::NotFound)));
}

#[test]
fn capture_window_first_queries_the_window_manager() {
    let action = plan_command(Command::CaptureWindow, &outputs_two()).unwrap();
    assert!(matches!(action, WorkerAction::QueryWindow));
}

#[test]
fn save_and_quit_pass_through() {
    let frame = CapturedFrame {
        desc: FrameDescription { format: FrameFormat::Xbgr8888, width: 1, height: 1, stride: 4 },
        color: ColorType::Rgba8,
        data: vec![0, 0, 0, 255],
    };
    let action =
        plan_command(Command::SaveToDisk(Some(String::from("shot")), frame), &outputs_two())
            .unwrap();
    match action {
        WorkerAction::Save(name, frame) => {
            assert_eq!(name.unwrap(), "shot");
            assert_eq!(frame.data.len(), 4);
        }
        _ => panic!("expected a save action"),
    }
    let action = plan_command(Command::Quit, &outputs_two()).unwrap();
    assert!(matches!(action, WorkerAction::Stop));
}

#[test]
fn window_capture_plans_on_the_containing_output() {
    let (output, region) =
        plan_window_capture(Region::new(2000, 100, 100, 100), &outputs_two()).unwrap();
    assert_eq!(output.name, "eDP-1");
    assert_eq!(region.x, 2000);

    let r = plan_window_capture(Region::new(-5, 0, 10, 10), &outputs_two());
    assert!(matches!(r, Err(CaptureError::InvalidRegion)));
}

#[test]
fn shm_primary_path_succeeds_directly() {
    assert_eq!(shm_step(ShmPhase::Memfd, ShmEvent::Opened(7)), ShmPhase::Done(7));
}

#[test]
fn shm_retries_on_interruption() {
    assert_eq!(shm_step(ShmPhase::Memfd, ShmEvent::Interrupted), ShmPhase::Memfd);
    assert_eq!(shm_step(ShmPhase::NamedOpen, ShmEvent::Interrupted), ShmPhase::NamedOpen);
}

#[test]
fn shm_falls_back_to_named_object_when_unsupported() {
    assert_eq!(shm_step(ShmPhase::Memfd, ShmEvent::Unsupported), ShmPhase::NamedOpen);
    assert_eq!(shm_step(ShmPhase::NamedOpen, ShmEvent::Opened(5)), ShmPhase::NamedUnlink(5));
    assert_eq!(shm_step(ShmPhase::NamedUnlink(5), ShmEvent::Unlinked), ShmPhase::Done(5));
}

#[test]
fn shm_retries_taken_names_and_propagates_errors() {
    assert_eq!(shm_step(ShmPhase::NamedOpen, ShmEvent::NameTaken), ShmPhase::NamedOpen);
    assert_eq!(shm_step(ShmPhase::Memfd, ShmEvent::Error(13)), ShmPhase::Failed(13));
    // A failed unlink closes the descriptor first, then reports the unlink error.
    assert_eq!(shm_step(ShmPhase::NamedUnlink(5), ShmEvent::Error(22)), ShmPhase::Closing(22));
    assert_eq!(shm_step(ShmPhase::Closing(22), ShmEvent::Closed), ShmPhase::Failed(22));
    assert_eq!(shm_step(ShmPhase::Closing(22), ShmEvent::Error(9)), ShmPhase::Failed(9));
}
