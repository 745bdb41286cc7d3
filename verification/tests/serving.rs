use camera_node::arbiter::CameraArbiter;
use camera_node::camera::{Camera, CameraConfig, CameraError, FrameBuffer, PixelFormat, Timeval};
use camera_node::sensor::{CameraSensor, SensorCommand, SensorParam};
use camera_node::channel::{
    consume_next, event_channel, never_waits, publish, sent_or_refused, InfoReceiver, InfoSender,
    PublishError,
};
use camera_node::display::SmallDisplayError;
use camera_node::event::{InfoUpdate, PinState};
use camera_node::http::{frame_response, serve_frame, HttpResponse};
use camera_node::address::Ipv4Addr;
use camera_node::status::StatusInfo;
use std::cell::Cell;

const FRAME: [u8; 5] = [0xff, 0xd8, 1, 2, 3];

fn frame() -> FrameBuffer<'static> {
    FrameBuffer::new(&FRAME, 640, 480, PixelFormat::Jpeg, Timeval { tv_sec: 1, tv_usec: 2 })
}

fn camera() -> Camera {
    let config = CameraConfig::for_wiring(None, None, 4, [0; 8], 5, 27, 25, None, None);
    Camera::new(config, |_| 0).unwrap()
}

fn channel() -> (InfoSender, InfoReceiver) {
    event_channel()
}

fn header<'a>(response: &'a HttpResponse, name: &str) -> Option<&'a str> {
    response.headers.iter().find(|(n, _)| n == name).map(|(_, v)| v.as_str())
}

#[test]
fn frame_response_for_a_frame() {
    let r = frame_response(Some(&FRAME));
    assert_eq!(r.status, 200);
    assert_eq!(
        r.headers,
        vec![
            ("Content-Type".to_owned(), "image/jpeg".to_owned()),
            ("Content-Length".to_owned(), "5".to_owned()),
        ]
    );
    assert_eq!(r.body, FRAME.to_vec());
}

#[test]
fn frame_response_length_of_a_large_frame() {
    let data = vec![7u8; 40_961];
    let r = frame_response(Some(&data));
    assert_eq!(header(&r, "Content-Length"), Some("40961"));
    assert_eq!(header(&r, "Content-Type"), Some("image/jpeg"));
    assert_eq!(r.body.len(), 40_961);
}

#[test]
fn frame_response_for_an_empty_frame() {
    let r = frame_response(Some(&[]));
    assert_eq!(r.status, 200);
    assert_eq!(header(&r, "Content-Length"), Some("0"));
    assert!(r.body.is_empty());
}

#[test]
fn frame_response_without_a_frame() {
    let r = frame_response(None);
    assert_eq!(r.status, 500);
    assert!(r.headers.is_empty());
    assert_eq!(r.body, b"Error: Unable to get framebuffer\n".to_vec());
}

#[test]
fn serve_frame_releases_what_it_checked_out() {
    let mut cam = camera();
    let returned = Cell::new(0);
    let r = serve_frame(&mut cam, || Some(frame()), |_| returned.set(returned.get() + 1));
    assert_eq!(r.status, 200);
    assert_eq!(r.body, FRAME.to_vec());
    assert_eq!(returned.get(), 1);
    assert_eq!(cam.outstanding(), 0);
}

#[test]
fn serve_frame_without_a_frame_is_a_server_error() {
    let mut cam = camera();
    let returned = Cell::new(0);
    let r = serve_frame(&mut cam, || None, |_| returned.set(returned.get() + 1));
    assert_eq!(r, frame_response(None));
    assert_eq!(returned.get(), 0);
    assert_eq!(cam.outstanding(), 0);
}

#[test]
fn serve_frame_on_an_exhausted_pool_does_not_ask_the_driver() {
    let mut cam = camera();
    let mut held = Vec::new();
    for _ in 0..4 {
        held.push(cam.checkout_frame(|| Some(frame())).unwrap());
    }
    let asked = Cell::new(false);
    let r = serve_frame(
        &mut cam,
        || {
            asked.set(true);
            Some(frame())
        },
        |_| (),
    );
    assert_eq!(r.status, 500);
    assert!(!asked.get());
    assert_eq!(cam.outstanding(), 4);
}

#[test]
fn request_without_a_frame_answers_500_and_frees_the_camera() {
    let arbiter = CameraArbiter::new(camera());
    let (tx, rx) = channel();
    let r = arbiter.handle_request(&tx, || None, |_| ());
    assert_eq!(r.status, 500);
    assert_eq!(r.body, b"Error: Unable to get framebuffer\n".to_vec());
    assert_eq!(rx.try_recv(), Ok(InfoUpdate::Msg("handling request".to_owned())));

    // The camera is free again: a checkout right after succeeds.
    let got = arbiter.with_camera(|mut cam| {
        let frame = cam.checkout_frame(|| Some(frame()));
        let ok = frame.is_ok();
        if let Ok(f) = frame {
            cam.release_frame(f, |_| ());
        }
        (cam, ok)
    });
    assert!(got);
    let r = arbiter.handle_request(&tx, || Some(frame()), |_| ());
    assert_eq!(r.status, 200);
    assert_eq!(r.body, FRAME.to_vec());
}

#[test]
fn request_with_a_frame_answers_the_image() {
    let arbiter = CameraArbiter::new(camera());
    let (tx, _rx) = channel();
    let returned = Cell::new(0);
    let r = arbiter.handle_request(&tx, || Some(frame()), |_| returned.set(returned.get() + 1));
    assert_eq!(r, frame_response(Some(&FRAME)));
    assert_eq!(returned.get(), 1);
    let out = arbiter.with_camera(|cam| (cam, cam.outstanding()));
    assert_eq!(out, 0);
}

#[test]
fn request_is_served_though_the_display_is_gone() {
    let arbiter = CameraArbiter::new(camera());
    let (tx, rx) = channel();
    drop(rx);
    let r = arbiter.handle_request(&tx, || Some(frame()), |_| ());
    assert_eq!(r.status, 200);
}

#[test]
fn with_camera_stores_what_the_operation_hands_back() {
    let arbiter = CameraArbiter::new(camera());
    let held = arbiter
        .with_camera(|mut cam| {
            let f = cam.checkout_frame(|| Some(frame())).ok();
            (cam, f)
        })
        .unwrap();
    assert_eq!(arbiter.with_camera(|cam| (cam, cam.outstanding())), 1);
    arbiter.with_camera(|mut cam| {
        cam.release_frame(held, |_| ());
        (cam, ())
    });
    assert_eq!(arbiter.with_camera(|cam| (cam, cam.outstanding())), 0);
}

#[test]
fn arbiter_configure_goes_through_the_camera() {
    let arbiter = CameraArbiter::new(camera());
    let seen = Cell::new(SensorCommand::Reset);
    let sensor = CameraSensor::new(|command| {
        seen.set(command);
        0
    });
    let r = arbiter.configure(&sensor, SensorParam::Quality, 10);
    assert_eq!(r, Ok(()));
    assert_eq!(seen.get(), SensorCommand::SetParam(SensorParam::Quality, 10));
    let refusing = CameraSensor::new(|_| 7);
    assert_eq!(
        arbiter.configure(&refusing, SensorParam::Quality, 10),
        Err(CameraError::Sensor(7))
    );
    let held = arbiter
        .with_camera(|mut cam| {
            let f = cam.checkout_frame(|| Some(frame())).ok();
            (cam, f)
        })
        .unwrap();
    seen.set(SensorCommand::Reset);
    assert_eq!(
        arbiter.configure(&sensor, SensorParam::Quality, 10),
        Err(CameraError::Busy)
    );
    assert_eq!(seen.get(), SensorCommand::Reset);
    arbiter.with_camera(|mut cam| {
        cam.release_frame(held, |_| ());
        (cam, ())
    });
    assert_eq!(arbiter.configure(&sensor, SensorParam::Quality, 10), Ok(()));
}

#[test]
fn published_events_arrive_in_order() {
    let (tx, rx) = channel();
    let mut status = StatusInfo::default();
    publish(&tx, InfoUpdate::Button(PinState::High)).unwrap();
    publish(&tx, InfoUpdate::Button(PinState::Low)).unwrap();
    publish(&tx, InfoUpdate::Addr(Ipv4Addr::new(10, 0, 0, 9))).unwrap();

    consume_next(&rx, &mut status).unwrap();
    assert_eq!(status.button_state_as_str(), "High");
    assert_eq!(status.address_as_str(), "");
    consume_next(&rx, &mut status).unwrap();
    assert_eq!(status.button_state_as_str(), "Low");
    consume_next(&rx, &mut status).unwrap();
    assert_eq!(status.button_state_as_str(), "Low");
    assert_eq!(status.address_as_str(), "10.0.0.9");
    assert_eq!(status.button_state(), Some(PinState::Low));
}

#[test]
fn two_producers_keep_their_own_order() {
    let (tx, rx) = channel();
    let button = tx.clone();
    let motion = tx.clone();
    drop(tx);
    publish(&button, InfoUpdate::Button(PinState::High)).unwrap();
    publish(&motion, InfoUpdate::Motion(PinState::Low)).unwrap();
    publish(&motion, InfoUpdate::Motion(PinState::High)).unwrap();
    publish(&button, InfoUpdate::Button(PinState::Low)).unwrap();
    drop(button);
    drop(motion);
    let mut status = StatusInfo::default();
    let mut buttons = Vec::new();
    let mut motions = Vec::new();
    while consume_next(&rx, &mut status).is_ok() {
        buttons.push(status.button_state_as_str());
        motions.push(status.motion_state_as_str());
    }
    assert_eq!(buttons, vec!["High", "High", "High", "Low"]);
    assert_eq!(motions, vec!["None", "Low", "High", "High"]);
}

#[test]
fn consumer_stops_when_every_producer_is_gone() {
    let (tx, rx) = channel();
    publish(&tx, InfoUpdate::Motion(PinState::High)).unwrap();
    drop(tx);
    let mut status = StatusInfo::default();
    assert!(consume_next(&rx, &mut status).is_ok());
    let before = status.clone();
    assert_eq!(
        consume_next(&rx, &mut status),
        Err(SmallDisplayError::Other(
            "receiving on an empty and disconnected channel".to_owned()
        ))
    );
    assert_eq!(status, before);
}

#[test]
fn publishing_to_a_dead_consumer_hands_the_event_back() {
    let (tx, rx) = channel();
    drop(rx);
    let r = publish(&tx, InfoUpdate::Msg("msg".to_owned()));
    assert_eq!(r, Err(PublishError::Disconnected(InfoUpdate::Msg("msg".to_owned()))));
    let e = r.unwrap_err();
    assert_eq!(e.to_string(), "sending on a disconnected channel");
    assert_eq!(e.into_event(), InfoUpdate::Msg("msg".to_owned()));
}

#[test]
fn error_texts_are_those_of_the_channel() {
    let mut status = StatusInfo::default();
    let (tx, rx) = channel();
    drop(tx);
    let closed = consume_next(&rx, &mut status).unwrap_err();
    assert_eq!(
        closed,
        SmallDisplayError::Other(format!("{}", crossbeam_channel::RecvError))
    );
    assert_eq!(closed.to_string(), format!("other: {}", crossbeam_channel::RecvError));
    let (tx, rx) = channel();
    drop(rx);
    let refused = publish(&tx, InfoUpdate::Button(PinState::Low)).unwrap_err();
    assert_eq!(refused.to_string(), format!("{}", crossbeam_channel::SendError(0u8)));
}

#[test]
fn event_channel_holds_many_events_without_a_consumer_turning() {
    let (tx, rx) = channel();
    for n in 0..10_000u32 {
        let level = PinState::from_bool(n % 2 == 0);
        assert_eq!(publish(&tx, InfoUpdate::Button(level)), Ok(()));
    }
    assert_eq!(rx.len(), 10_000);
    let mut status = StatusInfo::default();
    for n in 0..10_000u32 {
        consume_next(&rx, &mut status).unwrap();
        assert_eq!(status.button_state(), Some(PinState::from_bool(n % 2 == 0)));
    }
    assert!(rx.is_empty());
}

#[test]
fn event_channel_is_unbounded() {
    let (tx, rx) = channel();
    assert!(never_waits(&tx));
    assert_eq!(tx.capacity(), None);
    assert_eq!(rx.capacity(), None);
    assert!(never_waits(&tx.clone()));
}

#[test]
fn bounded_channels_may_make_a_producer_wait() {
    let (tx, _rx): (InfoSender, InfoReceiver) = crossbeam_channel::bounded(2);
    assert!(!never_waits(&tx));
    let (tx, _rx): (InfoSender, InfoReceiver) = crossbeam_channel::bounded(0);
    assert!(!never_waits(&tx));
}

#[test]
fn both_ends_of_the_event_channel_are_one_channel() {
    let (tx, rx) = channel();
    assert!(rx.is_empty());
    publish(&tx, InfoUpdate::Motion(PinState::Low)).unwrap();
    assert_eq!(rx.len(), 1);
    assert_eq!(rx.try_recv(), Ok(InfoUpdate::Motion(PinState::Low)));
}

#[test]
fn send_outcomes_become_publish_results() {
    assert_eq!(sent_or_refused(Ok(())), Ok(()));
    assert_eq!(
        sent_or_refused(Err(InfoUpdate::Button(PinState::High))),
        Err(PublishError::Disconnected(InfoUpdate::Button(PinState::High)))
    );
    assert_eq!(
        sent_or_refused(Err(InfoUpdate::Msg("m".to_owned()))),
        Err(PublishError::Disconnected(InfoUpdate::Msg("m".to_owned())))
    );
}

#[test]
fn every_request_gets_a_reply() {
    let arbiter = CameraArbiter::new(camera());
    let (tx, _rx) = channel();
    for n in 0..20 {
        let r = if n % 3 == 0 {
            arbiter.handle_request(&tx, || None, |_| ())
        } else {
            arbiter.handle_request(&tx, || Some(frame()), |_| ())
        };
        assert_eq!(r.status, if n % 3 == 0 { 500 } else { 200 });
        assert_eq!(arbiter.with_camera(|cam| (cam, cam.outstanding())), 0);
    }
}

#[test]
fn request_on_an_exhausted_pool_is_a_server_error() {
    let arbiter = CameraArbiter::new(camera());
    let (tx, _rx) = channel();
    let held = arbiter.with_camera(|mut cam| {
        let mut held = Vec::new();
        for _ in 0..4 {
            held.push(cam.checkout_frame(|| Some(frame())).unwrap());
        }
        (cam, held)
    });
    let asked = Cell::new(false);
    let r = arbiter.handle_request(
        &tx,
        || {
            asked.set(true);
            Some(frame())
        },
        |_| (),
    );
    assert_eq!(r, frame_response(None));
    assert!(!asked.get());
    arbiter.with_camera(|mut cam| {
        for f in held {
            cam.release_frame(f, |_| ());
        }
        (cam, ())
    });
    assert_eq!(arbiter.handle_request(&tx, || Some(frame()), |_| ()).status, 200);
}

#[test]
fn new_arbiter_holds_the_camera_it_was_given() {
    let mut cam = camera();
    let held = cam.checkout_frame(|| Some(frame())).unwrap();
    let arbiter = CameraArbiter::new(cam);
    let seen = arbiter.with_camera(|c| (c, c));
    assert_eq!(seen, cam);
    assert_eq!(seen.outstanding(), 1);
    assert_eq!(seen.config(), cam.config());
    arbiter.with_camera(|mut c| {
        c.release_frame(held, |_| ());
        (c, ())
    });
    assert_eq!(arbiter.with_camera(|c| (c, c.outstanding())), 0);
}
