//! Exclusive access to the one camera.
//!
//! The camera sits behind a `std::sync::Mutex`. Locking, reading and writing
//! through the guard are calls into the standard library that are taken on
//! trust; the order in which they are made is verified. A poisoned lock is
//! taken like any other: a holder that failed cannot have left half a
//! camera behind.

use crate::camera::{Camera, CameraError, FrameBuffer};
use crate::channel::{publish, InfoSender};
use crate::event::InfoUpdate;
use crate::http::{captured_data, frame_reply, serve_frame, HttpResponse, HttpResponseView};
use crate::sensor::{carried_out, CameraSensor, SensorCommand, SensorParam};
use vstd::prelude::*;

verus! {

/// `std::sync::Mutex`, taken as an opaque value.
#[verifier::external_type_specification]
#[verifier::external_body]
#[verifier::reject_recursive_types(T)]
pub struct ExMutex<T: ?Sized>(std::sync::Mutex<T>);

/// `std::sync::MutexGuard`, taken as an opaque value.
#[verifier::external_type_specification]
#[verifier::external_body]
#[verifier::reject_recursive_types(T)]
pub struct ExMutexGuard<'a, T: ?Sized + 'a>(std::sync::MutexGuard<'a, T>);

/// `std::sync::PoisonError`, taken as an opaque value.
#[verifier::external_type_specification]
#[verifier::external_body]
#[verifier::reject_recursive_types(T)]
pub struct ExPoisonError<T>(std::sync::PoisonError<T>);

/// The one camera, shared by every task that needs it. At any moment at
/// most one of them is inside `with_camera`.
pub struct CameraArbiter {
    camera: std::sync::Mutex<Camera>,
}

/// Calls `std::sync::Mutex::new`. Trusted: nothing is claimed of the result.
#[verifier::external_body]
fn new_mutex(camera: Camera) -> (m: std::sync::Mutex<Camera>) {
    std::sync::Mutex::new(camera)
}

/// Calls `std::sync::Mutex::lock`, which blocks until the lock is free; a
/// thread that holds the lock must not call it again. Trusted: nothing is
/// claimed of the result. The error is that of a poisoned lock and holds the
/// guard all the same.
#[verifier::external_body]
fn lock_camera<'a>(m: &'a std::sync::Mutex<Camera>) -> (r: Result<
    std::sync::MutexGuard<'a, Camera>,
    std::sync::PoisonError<std::sync::MutexGuard<'a, Camera>>,
>) {
    m.lock()
}

/// Calls `std::sync::PoisonError::into_inner`, which hands out the guard
/// that the error holds. Trusted: nothing is claimed of the result.
#[verifier::external_body]
fn guard_of<'a>(poisoned: std::sync::PoisonError<std::sync::MutexGuard<'a, Camera>>) -> (guard:
    std::sync::MutexGuard<'a, Camera>) {
    poisoned.into_inner()
}

/// Reads the camera through the guard, by `Deref::deref` of
/// `std::sync::MutexGuard`. Trusted: nothing is claimed of the result.
#[verifier::external_body]
fn read_guard(guard: &std::sync::MutexGuard<'_, Camera>) -> (camera: Camera) {
    **guard
}

/// Writes the camera through the guard, by `DerefMut::deref_mut` of
/// `std::sync::MutexGuard`. Trusted: nothing is claimed.
#[verifier::external_body]
fn write_guard(guard: &mut std::sync::MutexGuard<'_, Camera>, camera: Camera) {
    **guard = camera;
}

/// Whether `r` is what a request for a setting comes to on a camera with
/// `outstanding` frames out: refused with `Busy` while a frame is out, and
/// otherwise what the sensor makes of the setting.
pub open spec fn setting_outcome<F: Fn(SensorCommand) -> i32>(
    outstanding: nat,
    run: F,
    param: SensorParam,
    value: i32,
    r: Result<(), CameraError>,
) -> bool {
    if outstanding > 0 {
        r == Err::<(), CameraError>(CameraError::Busy)
    } else {
        carried_out(run, SensorCommand::SetParam(param, value), r)
    }
}

/// Whether `reply` is what a request for a frame comes to on a camera with
/// `outstanding` of `depth` frames out: the server error while the pool is
/// exhausted, and otherwise the reply for what `capture` returned, with the
/// captured frame handed back through `give_back`.
pub open spec fn request_outcome<'a, F: FnOnce() -> Option<FrameBuffer<'a>>, G: FnOnce(
    FrameBuffer<'a>,
)>(outstanding: nat, depth: nat, capture: F, give_back: G, reply: HttpResponseView) -> bool {
    if outstanding >= depth {
        reply == frame_reply(None)
    } else {
        exists|captured: Option<FrameBuffer<'a>>|
            {
                &&& capture.ensures((), captured)
                &&& reply == frame_reply(captured_data(captured))
                &&& captured matches Some(frame) ==> give_back.ensures((frame,), ())
            }
    }
}

impl CameraArbiter {
    /// An arbiter that owns `camera`.
    pub fn new(camera: Camera) -> (arbiter: CameraArbiter) {
        CameraArbiter { camera: new_mutex(camera) }
    }

    /// Takes the lock, waiting for it if need be.
    ///
    /// A holder that panicked leaves the lock poisoned. The camera behind
    /// it is whole all the same, because it is only ever replaced as a
    /// whole, so the poison is passed over and the lock is taken.
    fn hold(&self) -> (guard: std::sync::MutexGuard<'_, Camera>) {
        match lock_camera(&self.camera) {
            Ok(guard) => guard,
            Err(poisoned) => guard_of(poisoned),
        }
    }

    /// Runs `op` with the camera held exclusively and stores the camera that
    /// `op` hands back. The lock is free again when this returns, also where
    /// an earlier holder failed while it held the camera.
    ///
    /// Which state the camera is in when the lock is taken depends on the
    /// earlier holders, so `op` has to accept every camera. `op` is run
    /// once, and the result is what it returned for the camera it was given.
    pub fn with_camera<R, F: FnOnce(Camera) -> (Camera, R)>(&self, op: F) -> (r: R)
        requires
            forall|camera: Camera| op.requires((camera,)),
        ensures
            exists|before: Camera, out: (Camera, R)|
                #[trigger] op.ensures((before,), out) && out.1 == r,
    {
        let mut guard = self.hold();
        let before = read_guard(&guard);
        let out = op(before);
        write_guard(&mut guard, out.0);
        out.1
    }

    /// Changes one numbered setting of the sensor while holding the camera.
    ///
    /// The outcome is that of `Camera::configure` on the camera found behind
    /// the lock: the setting is refused with `Busy` while a frame is checked
    /// out, and otherwise the sensor's status decides. How many frames are
    /// out is for the earlier holders to have decided.
    pub fn configure<F: Fn(SensorCommand) -> i32>(
        &self,
        sensor: &CameraSensor<F>,
        param: SensorParam,
        value: i32,
    ) -> (r: Result<(), CameraError>)
        requires
            sensor.runner().requires((SensorCommand::SetParam(param, value),)),
        ensures
            exists|outstanding: nat| #[trigger]
                setting_outcome(outstanding, sensor.runner(), param, value, r),
    {
        let guard = self.hold();
        let camera = read_guard(&guard);
        let r = camera.configure(sensor, param, value);
        assert(setting_outcome(camera.spec_outstanding(), sensor.runner(), param, value, r));
        r
    }

    /// Answers one request for the latest frame.
    ///
    /// The request is announced on the event channel; a closed channel does
    /// not stop the request. Then the camera is held while a frame is
    /// checked out, copied into the reply and handed back. The reply is that
    /// of `serve_frame` on the camera found behind the lock: the frame, or
    /// the server error where no frame can be had. How many frames are out
    /// is for the earlier holders to have decided.
    pub fn handle_request<'a, F, G>(&self, tx: &InfoSender, capture: F, give_back: G) -> (response:
        HttpResponse)
        where
            F: FnOnce() -> Option<FrameBuffer<'a>>,
            G: FnOnce(FrameBuffer<'a>),

        requires
            capture.requires(()),
            forall|frame: FrameBuffer<'a>| give_back.requires((frame,)),
        ensures
            exists|outstanding: nat, depth: nat| #[trigger]
                request_outcome(outstanding, depth, capture, give_back, response@),
    {
        let _ = publish(tx, InfoUpdate::message("handling request"));
        let mut guard = self.hold();
        let mut camera = read_guard(&guard);
        let ghost outstanding = camera.spec_outstanding();
        let ghost depth = camera.depth();
        let response = serve_frame(&mut camera, capture, give_back);
        write_guard(&mut guard, camera);
        assert(request_outcome(outstanding, depth, capture, give_back, response@));
        response
    }
}

} // verus!
