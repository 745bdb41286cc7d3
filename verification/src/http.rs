//! The reply to a request for the latest frame.

use crate::camera::{Camera, CameraError, FrameBuffer};
use crate::decimal::{decimal, to_decimal_string};
use vstd::prelude::*;
use vstd::slice::slice_to_vec;
use vstd::string::{StringExecFns, StringSliceAdditionalSpecFns};

verus! {

/// An HTTP reply: the status, the header lines in order, and the body.
#[derive(Debug, PartialEq, Eq)]
pub struct HttpResponse {
    pub status: u16,
    pub headers: Vec<(String, String)>,
    pub body: Vec<u8>,
}

/// A reply as specifications see it.
pub struct HttpResponseView {
    pub status: u16,
    pub headers: Seq<(Seq<char>, Seq<char>)>,
    pub body: Seq<u8>,
}

impl View for HttpResponse {
    type V = HttpResponseView;

    open spec fn view(&self) -> HttpResponseView {
        HttpResponseView {
            status: self.status,
            headers: Seq::new(
                self.headers@.len(),
                |i: int| (self.headers@[i].0@, self.headers@[i].1@),
            ),
            body: self.body@,
        }
    }
}

/// The body of the reply when no frame could be had, one line of text.
pub open spec fn unavailable_body() -> Seq<u8> {
    "Error: Unable to get framebuffer\n".spec_bytes()
}

/// The reply to a frame request: the frame as a JPEG image with its length,
/// or a server error with an explanation where there is no frame.
pub open spec fn frame_reply(frame: Option<Seq<u8>>) -> HttpResponseView {
    match frame {
        Some(data) => HttpResponseView {
            status: 200,
            headers: seq![
                ("Content-Type"@, "image/jpeg"@),
                ("Content-Length"@, decimal(data.len())),
            ],
            body: data,
        },
        None => HttpResponseView { status: 500, headers: Seq::empty(), body: unavailable_body() },
    }
}

/// The bytes of a captured frame, where there is one.
pub open spec fn captured_data(captured: Option<FrameBuffer<'_>>) -> Option<Seq<u8>> {
    match captured {
        Some(frame) => Some(frame@.data),
        None => None,
    }
}

/// The reply for the bytes of a frame, or for the lack of one.
pub fn frame_response(frame: Option<&[u8]>) -> (response: HttpResponse)
    ensures
        response@ == frame_reply(
            match frame {
                Some(data) => Some(data@),
                None => None,
            },
        ),
{
    match frame {
        Some(data) => {
            let mut headers: Vec<(String, String)> = Vec::new();
            headers.push((String::from_str("Content-Type"), String::from_str("image/jpeg")));
            headers.push(
                (String::from_str("Content-Length"), to_decimal_string(data.len() as u64)),
            );
            let response = HttpResponse { status: 200, headers, body: slice_to_vec(data) };
            assert(response@.headers =~= frame_reply(Some(data@)).headers);
            response
        },
        None => {
            let response = HttpResponse {
                status: 500,
                headers: Vec::new(),
                body: slice_to_vec("Error: Unable to get framebuffer\n".as_bytes()),
            };
            assert(response@.headers =~= frame_reply(None).headers);
            response
        },
    }
}

/// Serves one frame request on a camera that the caller holds exclusively.
///
/// A frame is checked out through `capture`, copied into the reply and
/// handed back through `give_back` before the function returns. When no
/// frame can be had the reply is the server error. Either way as many frames
/// are out afterwards as before.
pub fn serve_frame<'a, F, G>(camera: &mut Camera, capture: F, give_back: G) -> (response:
    HttpResponse)
    where
        F: FnOnce() -> Option<FrameBuffer<'a>>,
        G: FnOnce(FrameBuffer<'a>),

    requires
        capture.requires(()),
        forall|frame: FrameBuffer<'a>| give_back.requires((frame,)),
    ensures
        final(camera).spec_config() == old(camera).spec_config(),
        final(camera).spec_outstanding() == old(camera).spec_outstanding(),
        old(camera).spec_outstanding() >= old(camera).depth() ==> response@ == frame_reply(None),
        old(camera).spec_outstanding() < old(camera).depth() ==> exists|
            captured: Option<FrameBuffer<'a>>,
        |
            {
                &&& capture.ensures((), captured)
                &&& response@ == frame_reply(captured_data(captured))
                &&& captured matches Some(frame) ==> give_back.ensures((frame,), ())
            },
{
    let checked_out = camera.checkout_frame(capture);
    let ghost room = old(camera).spec_outstanding() < old(camera).depth();
    let ghost captured: Option<FrameBuffer<'a>> = if room {
        choose|captured: Option<FrameBuffer<'a>>|
            capture.ensures((), captured) && match captured {
                Some(frame) => checked_out == Ok::<FrameBuffer<'a>, CameraError>(frame),
                None => checked_out is Err,
            }
    } else {
        None
    };
    match checked_out {
        Ok(frame) => {
            let response = frame_response(Some(frame.data()));
            camera.release_frame(frame, give_back);
            proof {
                assert(room);
                assert(captured == Some(frame));
                assert(response@ == frame_reply(captured_data(captured)));
            }
            response
        },
        Err(_) => {
            let response = frame_response(None);
            proof {
                if room {
                    assert(captured is None);
                    assert(response@ == frame_reply(captured_data(captured)));
                }
            }
            response
        },
    }
}

} // verus!
