use motion_detection_camera::frame::Frame;
use motion_detection_camera::recorder::{
    RecorderActor, RecorderOption, RecorderRequest, RecorderResponse, SinkCommand,
};

fn test_actor() -> RecorderActor {
    RecorderActor::new(RecorderOption::new(0x7634706d, 30000, 640, 480, true))
}

fn frame_request() -> RecorderRequest {
    RecorderRequest::Frame(Frame::new(2, 2, vec![9; 4]))
}

#[test]
fn recorder_option_fields() {
    let o = RecorderOption::new(7, 25000, 320, 240, false);
    assert_eq!(o.fourcc, 7);
    assert_eq!(o.fps_millihertz, 25000);
    assert_eq!(o.frame_width, 320);
    assert_eq!(o.frame_height, 240);
    assert!(!o.is_color);
}

#[test]
fn idle_rejects_frame_and_stop() {
    let mut actor = test_actor();
    assert!(matches!(actor.decide(&frame_request()), SinkCommand::Nothing));
    assert_eq!(actor.settle(&frame_request(), true), RecorderResponse::Failure);
    assert!(matches!(actor.decide(&RecorderRequest::Stop), SinkCommand::Nothing));
    assert_eq!(actor.settle(&RecorderRequest::Stop, true), RecorderResponse::Failure);
    // Still idle: a start is accepted afterwards.
    assert_eq!(actor.settle(&RecorderRequest::Start, true), RecorderResponse::Success);
}

#[test]
fn start_opens_and_records() {
    let mut actor = test_actor();
    assert!(matches!(actor.decide(&RecorderRequest::Start), SinkCommand::Open));
    assert_eq!(actor.settle(&RecorderRequest::Start, true), RecorderResponse::Success);
    assert!(matches!(actor.decide(&frame_request()), SinkCommand::Write));
    assert_eq!(actor.settle(&frame_request(), true), RecorderResponse::Success);
}

#[test]
fn second_start_never_closes() {
    let mut actor = test_actor();
    actor.settle(&RecorderRequest::Start, true);
    // A start while recording asks for a fresh sink, not for a close.
    let cmd = actor.decide(&RecorderRequest::Start);
    assert!(matches!(cmd, SinkCommand::Open));
    assert_eq!(actor.settle(&RecorderRequest::Start, true), RecorderResponse::Success);
    // And the session is still recording.
    assert_eq!(actor.settle(&frame_request(), true), RecorderResponse::Success);
}

#[test]
fn failed_write_reports_failure() {
    let mut actor = test_actor();
    actor.settle(&RecorderRequest::Start, true);
    assert_eq!(actor.settle(&frame_request(), false), RecorderResponse::Failure);
    // The session survives a failed write.
    assert_eq!(actor.settle(&frame_request(), true), RecorderResponse::Success);
}

#[test]
fn stop_goes_idle_even_on_failed_finalize() {
    let mut actor = test_actor();
    actor.settle(&RecorderRequest::Start, true);
    assert!(matches!(actor.decide(&RecorderRequest::Stop), SinkCommand::Close));
    assert_eq!(actor.settle(&RecorderRequest::Stop, false), RecorderResponse::Failure);
    // The failed finalize was reported, but the session is gone.
    assert_eq!(actor.settle(&frame_request(), true), RecorderResponse::Failure);
    assert_eq!(actor.settle(&RecorderRequest::Stop, true), RecorderResponse::Failure);
}

#[test]
fn responses_come_in_request_order() {
    let mut actor = test_actor();
    let requests = vec![
        RecorderRequest::Stop,
        RecorderRequest::Start,
        frame_request(),
        frame_request(),
        RecorderRequest::Stop,
        frame_request(),
        RecorderRequest::Shutdown,
    ];
    let io_oks = vec![true; requests.len()];
    let responses = actor.run(&requests, &io_oks);
    assert_eq!(
        responses,
        vec![
            RecorderResponse::Failure,
            RecorderResponse::Success,
            RecorderResponse::Success,
            RecorderResponse::Success,
            RecorderResponse::Success,
            RecorderResponse::Failure,
            RecorderResponse::Success,
        ]
    );
}

#[test]
fn shutdown_cuts_the_mailbox_short() {
    let mut actor = test_actor();
    let requests = vec![
        RecorderRequest::Start,
        RecorderRequest::Shutdown,
        RecorderRequest::Stop,
        frame_request(),
    ];
    let io_oks = vec![true; requests.len()];
    let responses = actor.run(&requests, &io_oks);
    // One response per request up to and including the shutdown, none after.
    assert_eq!(responses.len(), 2);
    assert_eq!(responses[0], RecorderResponse::Success);
    assert_eq!(responses[1], RecorderResponse::Success);
}

#[test]
fn is_shutdown_distinguishes_requests() {
    assert!(RecorderRequest::Shutdown.is_shutdown());
    assert!(!RecorderRequest::Start.is_shutdown());
    assert!(!RecorderRequest::Stop.is_shutdown());
    assert!(!frame_request().is_shutdown());
}
