use rbomberman::error::{
    exit_code, Outcome, RuntimeDeviceError, StartupResourceError, EXIT_FAILURE, EXIT_SUCCESS,
};
use rbomberman::event_loop::{
    Action, Event, EventLoop, Key, LoopState, RenderCommand, Surface,
};
use rbomberman::window::default_window;

fn fresh() -> EventLoop {
    EventLoop::new(800, 600)
}

#[test]
fn new_loop_is_running() {
    let l = fresh();
    assert!(l.is_running());
    assert_eq!(l.state, LoopState::Running);
    assert_eq!(l.surface, Surface { width: 800, height: 600 });
}

#[test]
fn close_stops_the_loop() {
    let mut l = fresh();
    assert_eq!(l.handle_event(Event::Closed), Action::Nothing);
    assert!(!l.is_running());
    assert_eq!(l.surface, Surface { width: 800, height: 600 });
}

#[test]
fn escape_stops_the_loop() {
    let mut l = fresh();
    assert_eq!(l.handle_event(Event::KeyDown(Key::Escape)), Action::Nothing);
    assert_eq!(l.state, LoopState::Stopped);
}

#[test]
fn other_key_does_not_stop_the_loop() {
    let mut l = fresh();
    assert_eq!(l.handle_event(Event::KeyDown(Key::Other)), Action::Nothing);
    assert!(l.is_running());
    assert_eq!(l.handle_event(Event::Other), Action::Nothing);
    assert!(l.is_running());
}

#[test]
fn resize_sets_surface_to_exact_size() {
    let mut l = fresh();
    assert_eq!(l.handle_event(Event::Resized(1024, 768)), Action::ResizeSurface(1024, 768));
    assert_eq!(l.surface, Surface { width: 1024, height: 768 });
    assert_eq!(l.handle_event(Event::Resized(1, u32::MAX)), Action::ResizeSurface(1, u32::MAX));
    assert_eq!(l.surface, Surface { width: 1, height: u32::MAX });
    assert!(l.is_running());
}

#[test]
fn resize_with_zero_side_is_dropped() {
    let mut l = fresh();
    assert_eq!(l.handle_event(Event::Resized(0, 768)), Action::Nothing);
    assert_eq!(l.handle_event(Event::Resized(1024, 0)), Action::Nothing);
    assert_eq!(l.handle_event(Event::Resized(0, 0)), Action::Nothing);
    assert_eq!(l.surface, Surface { width: 800, height: 600 });
    assert!(l.is_running());
}

#[test]
fn mouse_move_is_logged_only() {
    let mut l = fresh();
    assert_eq!(l.handle_event(Event::MouseMoved), Action::LogMouseMoved);
    assert_eq!(l, fresh());
}

#[test]
fn stopped_loop_stays_stopped() {
    let mut l = fresh();
    l.handle_event(Event::Closed);
    l.handle_event(Event::KeyDown(Key::Other));
    l.handle_event(Event::MouseMoved);
    l.handle_event(Event::Resized(10, 10));
    assert_eq!(l.state, LoopState::Stopped);
}

#[test]
fn events_after_a_stop_are_still_handled() {
    let mut l = fresh();
    let actions = l.handle_events(&vec![
        Event::MouseMoved,
        Event::Closed,
        Event::Resized(320, 200),
        Event::Resized(0, 5),
    ]);
    assert_eq!(
        actions,
        vec![
            Action::LogMouseMoved,
            Action::Nothing,
            Action::ResizeSurface(320, 200),
            Action::Nothing
        ]
    );
    assert_eq!(l.state, LoopState::Stopped);
    assert_eq!(l.surface, Surface { width: 320, height: 200 });
}

#[test]
fn no_events_change_nothing() {
    let mut l = fresh();
    assert_eq!(l.handle_events(&Vec::new()), Vec::new());
    assert_eq!(l, fresh());
}

#[test]
fn frame_is_clear_draw_flush_present_cleanup() {
    let l = fresh();
    assert_eq!(
        l.frame_commands(),
        vec![
            RenderCommand::Clear(0, 0, 0, 255),
            RenderCommand::Draw,
            RenderCommand::Flush,
            RenderCommand::Present,
            RenderCommand::Cleanup
        ]
    );
}

#[test]
fn frame_after_stop_is_a_whole_frame() {
    let mut l = fresh();
    let before = l.frame_commands();
    l.handle_event(Event::Closed);
    assert!(!l.is_running());
    assert_eq!(l.frame_commands(), before);
    assert_eq!(l.frame_commands().len(), 5);
}

#[test]
fn close_before_first_frame_renders_one_frame() {
    let mut l = default_window().start_loop();
    let frames = l.replay(&vec![vec![Event::Closed], vec![Event::MouseMoved], vec![]]);
    assert_eq!(frames, 1);
    assert!(!l.is_running());
    assert_eq!(exit_code(Outcome::Finished), 0);
}

#[test]
fn replay_counts_a_frame_for_each_batch_until_the_stop() {
    let mut l = fresh();
    let frames = l.replay(&vec![
        vec![],
        vec![Event::MouseMoved, Event::Resized(400, 300)],
        vec![Event::Other, Event::KeyDown(Key::Escape), Event::Resized(64, 64)],
        vec![Event::Resized(1, 1)],
    ]);
    assert_eq!(frames, 3);
    assert_eq!(l.state, LoopState::Stopped);
    assert_eq!(l.surface, Surface { width: 64, height: 64 });
}

#[test]
fn replay_without_stop_renders_every_batch() {
    let mut l = fresh();
    let frames = l.replay(&vec![vec![], vec![Event::MouseMoved], vec![Event::KeyDown(Key::Other)]]);
    assert_eq!(frames, 3);
    assert!(l.is_running());
}

#[test]
fn replay_of_nothing_renders_nothing() {
    let mut l = fresh();
    assert_eq!(l.replay(&Vec::new()), 0);
    assert_eq!(l, fresh());
}

#[test]
fn replay_on_a_stopped_loop_renders_nothing() {
    let mut l = fresh();
    l.handle_event(Event::Closed);
    assert_eq!(l.replay(&vec![vec![Event::Resized(5, 5)], vec![]]), 0);
    assert_eq!(l.surface, Surface { width: 800, height: 600 });
}

#[test]
fn exit_codes() {
    assert_eq!(EXIT_SUCCESS, 0);
    assert_eq!(EXIT_FAILURE, 101);
    assert_eq!(exit_code(Outcome::Finished), 0);
    assert_eq!(exit_code(Outcome::StartupFailed(StartupResourceError::AssetMissing)), 101);
    assert_eq!(exit_code(Outcome::StartupFailed(StartupResourceError::AssetUndecodable)), 101);
    assert_eq!(exit_code(Outcome::StartupFailed(StartupResourceError::PixelDataMismatch)), 101);
    assert_eq!(exit_code(Outcome::StartupFailed(StartupResourceError::TextureTooLarge)), 101);
    assert_eq!(exit_code(Outcome::StartupFailed(StartupResourceError::ResourceRejected)), 101);
    assert_eq!(exit_code(Outcome::StartupFailed(StartupResourceError::PipelineRejected)), 101);
    assert_eq!(exit_code(Outcome::DeviceFailed(RuntimeDeviceError::FlushFailed)), 101);
    assert_eq!(exit_code(Outcome::DeviceFailed(RuntimeDeviceError::PresentFailed)), 101);
}

#[test]
fn default_window_is_800_by_600() {
    let w = default_window();
    assert_eq!(w.title, "rbomberman");
    assert_eq!(w.width, 800);
    assert_eq!(w.height, 600);
    assert!(w.vsync);
    let l = w.start_loop();
    assert!(l.is_running());
    assert_eq!(l.surface, Surface { width: 800, height: 600 });
}

#[test]
fn frames_up_to_and_including_the_first_stop() {
    for k in 0..5usize {
        let mut batches: Vec<Vec<Event>> = vec![vec![Event::MouseMoved]; k];
        batches.push(vec![Event::Other, Event::Closed]);
        batches.push(vec![Event::Resized(7, 7)]);
        let mut l = fresh();
        assert_eq!(l.replay(&batches), k + 1);
        assert_eq!(l.state, LoopState::Stopped);
        assert_eq!(l.surface, Surface { width: 800, height: 600 });
    }
}
