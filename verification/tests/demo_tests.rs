use frame_capture::image_data::RGBAImageData;
use frame_capture::input::{Input, Key, KeyState, WindowEvent};
use frame_capture::loop_ctl::{handle_event, next_frame, LoopAction};
use frame_capture::tasks::TaskQueue;
use frame_capture::timer::FrameTimer;

fn press(key: Key) -> WindowEvent {
    WindowEvent::Keyboard { state: KeyState::Pressed, key }
}

fn release(key: Key) -> WindowEvent {
    WindowEvent::Keyboard { state: KeyState::Released, key }
}

#[test]
fn default_is_zeroed() {
    let n: u64 = frame_capture::default();
    assert_eq!(n, 0);
    let b: bool = frame_capture::default();
    assert!(!b);
}

#[test]
fn fresh_input_holds_nothing() {
    let input = Input::new();
    assert!(!input.command());
}

#[test]
fn press_release_left_modifier() {
    let mut input = Input::new();
    input.update(&press(Key::LCommand));
    assert!(input.command());
    input.update(&release(Key::LCommand));
    assert!(!input.command());
}

#[test]
fn release_one_of_two_keeps_held() {
    let mut input = Input::new();
    input.update(&press(Key::LCommand));
    input.update(&press(Key::RCommand));
    assert!(input.command());
    input.update(&release(Key::LCommand));
    assert!(input.command());
    input.update(&release(Key::RCommand));
    assert!(!input.command());
}

#[test]
fn other_keys_leave_modifiers_alone() {
    let mut input = Input::new();
    input.update(&press(Key::LCommand));
    input.update(&press(Key::Quit));
    input.update(&release(Key::SyncShot));
    input.update(&WindowEvent::Other);
    assert!(input.command());
}

#[test]
fn stats_of_fresh_timer_are_zero() {
    let timer = FrameTimer::new();
    assert_eq!(timer.stats(), (0, 0));
}

#[test]
fn stats_average_and_max() {
    let mut timer = FrameTimer::new();
    // Frames 0..60 each take 2 ms, except one 62 ms spike.
    for frame in 0..60u64 {
        timer.record(frame, 2);
    }
    timer.record(17, 62);
    // Sum is 59 * 2 + 62 = 180, so the average is exactly 3.
    assert_eq!(timer.stats(), (3, 62));
}

#[test]
fn ring_buffer_wraps_to_most_recent_cycle() {
    let mut timer = FrameTimer::new();
    // Two full cycles; frame i takes i ms.
    for frame in 0..120u64 {
        timer.record(frame, frame);
    }
    // Only the second cycle (frames 60..120) remains:
    // sum = (60 + 119) * 60 / 2 = 5370, average = 89, max = 119.
    assert_eq!(timer.stats(), (89, 119));
}

#[test]
fn report_due_every_sixty_frames() {
    let timer = FrameTimer::new();
    assert_eq!(timer.maybe_stats(0), Some((0, 0)));
    assert_eq!(timer.maybe_stats(1), None);
    assert_eq!(timer.maybe_stats(59), None);
    assert_eq!(timer.maybe_stats(60), Some((0, 0)));
}

#[test]
fn async_task_due_exactly_at_delay() {
    let mut queue: TaskQueue<u32> = TaskQueue::new();
    queue.enqueue(7, 4, 42);
    assert_eq!(queue.front_due(), Some(11));
    for tick in 7..11u64 {
        assert_eq!(queue.service(tick), None);
        assert_eq!(queue.len(), 1);
    }
    assert_eq!(queue.service(11), Some(42));
    assert_eq!(queue.len(), 0);
    assert_eq!(queue.front_due(), None);
}

#[test]
fn service_of_empty_queue_is_none() {
    let mut queue: TaskQueue<u32> = TaskQueue::new();
    assert_eq!(queue.service(0), None);
    assert_eq!(queue.front_due(), None);
}

#[test]
fn zero_delay_task_is_due_immediately() {
    let mut queue: TaskQueue<u32> = TaskQueue::new();
    queue.enqueue(9, 0, 5);
    assert_eq!(queue.service(9), Some(5));
}

#[test]
fn pickup_is_by_exact_due_frame() {
    // Two captures enqueued on the same frame share a due frame; only one
    // task leaves per tick, and the tick after the due frame removes nothing.
    let mut queue: TaskQueue<u32> = TaskQueue::new();
    queue.enqueue(10, 5, 1);
    queue.enqueue(10, 5, 2);
    assert_eq!(queue.service(15), Some(1));
    assert_eq!(queue.service(16), None);
    assert_eq!(queue.len(), 1);
}

#[test]
fn fifo_on_consecutive_frames() {
    let mut queue: TaskQueue<u32> = TaskQueue::new();
    queue.enqueue(10, 5, 1);
    queue.enqueue(11, 5, 2);
    // The second task is not picked up before the first.
    assert_eq!(queue.service(15), Some(1));
    assert_eq!(queue.service(16), Some(2));
    assert_eq!(queue.len(), 0);
}

#[test]
fn async_capture_end_to_end() {
    // Enqueue at frame 10 with delay 5; a later capture is enqueued at
    // frame 12. Exactly one pickup happens, at frame 15, and the other
    // entry is untouched.
    let mut queue: TaskQueue<&str> = TaskQueue::new();
    let mut frame: u64 = 10;
    queue.enqueue(frame, 5, "first");
    let mut serviced: Vec<(u64, &str)> = Vec::new();
    while frame < 16 {
        if frame == 12 {
            queue.enqueue(frame, 5, "second");
        }
        if let Some(task) = queue.service(frame) {
            serviced.push((frame, task));
        }
        frame = next_frame(frame);
    }
    assert_eq!(serviced, vec![(15, "first")]);
    assert_eq!(queue.len(), 1);
    assert_eq!(queue.front_due(), Some(17));
    assert_eq!(queue.service(17), Some("second"));
}

#[test]
fn quit_without_modifier_continues() {
    let mut input = Input::new();
    assert_eq!(handle_event(&mut input, &press(Key::Quit)), LoopAction::Continue);
    assert_eq!(handle_event(&mut input, &press(Key::LCommand)), LoopAction::Continue);
    assert_eq!(handle_event(&mut input, &press(Key::Quit)), LoopAction::Exit);
}

#[test]
fn window_close_always_exits() {
    let mut input = Input::new();
    assert_eq!(handle_event(&mut input, &WindowEvent::Closed), LoopAction::Exit);
}

#[test]
fn capture_keys_request_captures() {
    let mut input = Input::new();
    assert_eq!(handle_event(&mut input, &press(Key::SyncShot)), LoopAction::CaptureSync);
    assert_eq!(handle_event(&mut input, &press(Key::AsyncShot)), LoopAction::CaptureAsync);
    assert_eq!(handle_event(&mut input, &release(Key::SyncShot)), LoopAction::Continue);
}

#[test]
fn frame_counter_advances() {
    assert_eq!(next_frame(0), 1);
    assert_eq!(next_frame(41), 42);
}

#[test]
fn capture_buffer_matches_dimensions() {
    let data = vec![(0, 0, 0, 255); 6];
    let img = RGBAImageData::from_raw(data, 3, 2);
    assert_eq!(img.width, 3);
    assert_eq!(img.height, 2);
    assert_eq!(img.data.len(), (img.width * img.height) as usize);
}

#[test]
fn pack_lays_out_channels_in_order() {
    let data = vec![(1, 2, 3, 4), (5, 6, 7, 8)];
    let img = RGBAImageData::from_raw(data, 2, 1);
    assert_eq!(img.pack(), vec![1, 2, 3, 4, 5, 6, 7, 8]);
}

#[test]
fn flip_reverses_row_order() {
    // A 1x3 image: three rows of one pixel each.
    let data = vec![(1, 1, 1, 1), (2, 2, 2, 2), (3, 3, 3, 3)];
    let img = RGBAImageData::from_raw(data, 1, 3);
    let bytes = img.pack();
    let flipped = frame_capture::image_data::flip_rows(&bytes, 1, 3);
    assert_eq!(flipped, vec![3, 3, 3, 3, 2, 2, 2, 2, 1, 1, 1, 1]);
}

#[test]
fn flip_of_single_row_changes_nothing() {
    let data = vec![(9, 8, 7, 6), (5, 4, 3, 2)];
    let img = RGBAImageData::from_raw(data, 2, 1);
    let bytes = img.pack();
    let flipped = frame_capture::image_data::flip_rows(&bytes, 2, 1);
    assert_eq!(flipped, bytes);
}

#[test]
fn to_image_carries_flipped_pixels() {
    // 1x2: bottom row (as the GPU stores it) is the (10, ...) pixel, so
    // after the vertical correction it must be the top row of the image.
    let data = vec![(10, 11, 12, 13), (20, 21, 22, 23)];
    let img = RGBAImageData::from_raw(data, 1, 2);
    let dynamic = img.to_image().expect("well-formed buffer must convert");
    assert_eq!(dynamic.width(), 1);
    assert_eq!(dynamic.height(), 2);
    let rgba = dynamic.as_rgba8().expect("built as RGBA");
    assert_eq!(rgba.get_pixel(0, 0).0, [20, 21, 22, 23]);
    assert_eq!(rgba.get_pixel(0, 1).0, [10, 11, 12, 13]);
}
