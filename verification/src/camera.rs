//! The camera: its configuration, the frames it lends out and the count
//! of frames that are out.
//!
//! The driver itself is not part of this library. Every call that touches
//! the hardware is handed in by the caller as a closure; the functions here
//! decide when to make it and what follows from its result.

use crate::decimal::{push_signed_decimal, signed_decimal};
use crate::sensor::{carried_out, CameraSensor, SensorCommand, SensorParam};
use vstd::prelude::*;
use vstd::slice::slice_to_vec;
use vstd::string::StringExecFns;

verus! {

/// How the bytes of a frame encode its pixels.
#[derive(Clone, Copy, Debug, PartialEq, Eq, Structural)]
pub enum PixelFormat {
    Rgb565,
    Yuv422,
    Yuv420,
    Grayscale,
    Jpeg,
    Rgb888,
    Raw,
    Rgb444,
    Rgb555,
}

/// The size of the frames that the sensor delivers.
#[derive(Clone, Copy, Debug, PartialEq, Eq, Structural)]
pub enum FrameSize {
    Qqvga,
    Qvga,
    Cif,
    Vga,
    Svga,
    Xga,
    Sxga,
    Uxga,
}

/// When the driver fills its frame buffers.
#[derive(Clone, Copy, Debug, PartialEq, Eq, Structural)]
pub enum GrabMode {
    /// Fills buffers when they are empty. Takes fewer resources, but the
    /// first frames may be old.
    CameraGrabWhenEmpty,
    /// Keeps the latest frames in the queue, except when only one buffer is
    /// used.
    CameraGrabLatest,
}

/// The number by which the driver knows a grab mode.
pub open spec fn grab_mode_code(mode: GrabMode) -> u32 {
    match mode {
        GrabMode::CameraGrabWhenEmpty => 0,
        GrabMode::CameraGrabLatest => 1,
    }
}

/// The grab mode that a number stands for; a number that the driver does
/// not know stands for `CameraGrabWhenEmpty`.
pub open spec fn grab_mode_of(code: u32) -> GrabMode {
    if code == 1 {
        GrabMode::CameraGrabLatest
    } else {
        GrabMode::CameraGrabWhenEmpty
    }
}

impl From<GrabMode> for u32 {
    fn from(value: GrabMode) -> (code: u32)
        ensures
            code == grab_mode_code(value),
    {
        match value {
            GrabMode::CameraGrabWhenEmpty => 0,
            GrabMode::CameraGrabLatest => 1,
        }
    }
}

impl vstd::std_specs::convert::FromSpecImpl<GrabMode> for u32 {
    open spec fn obeys_from_spec() -> bool {
        true
    }

    open spec fn from_spec(value: GrabMode) -> u32 {
        grab_mode_code(value)
    }
}

impl From<u32> for GrabMode {
    fn from(value: u32) -> (mode: GrabMode)
        ensures
            mode == grab_mode_of(value),
    {
        if value == 1 {
            GrabMode::CameraGrabLatest
        } else {
            GrabMode::CameraGrabWhenEmpty
        }
    }
}

impl vstd::std_specs::convert::FromSpecImpl<u32> for GrabMode {
    open spec fn obeys_from_spec() -> bool {
        true
    }

    open spec fn from_spec(value: u32) -> GrabMode {
        grab_mode_of(value)
    }
}

/// A grab mode survives the way to its number and back.
pub proof fn law_grab_mode_round_trip(mode: GrabMode)
    ensures
        grab_mode_of(grab_mode_code(mode)) == mode,
{
}

/// The moment a frame was captured: seconds and microseconds.
#[derive(Clone, Copy, Debug, PartialEq, Eq, Structural)]
pub struct Timeval {
    pub tv_sec: i64,
    pub tv_usec: i64,
}

/// What can go wrong around the camera.
#[derive(Clone, Copy, Debug, PartialEq, Eq, Structural)]
pub enum CameraError {
    /// The driver refused to start; the code is the one it returned.
    InitFailed(i32),
    /// A frame could not be converted to the requested format.
    FailedToSetOutFormat,
    /// No frame is ready, or every buffer of the pool is already out.
    FrameUnavailable,
    /// A setting was refused because a frame is checked out.
    Busy,
    /// The sensor refused a setting; the code is the one it returned.
    Sensor(i32),
}

/// The text that describes a camera error.
pub open spec fn camera_error_text(e: CameraError) -> Seq<char> {
    match e {
        CameraError::InitFailed(code) => "camera init failed: error code "@ + signed_decimal(
            code as int,
        ),
        CameraError::FailedToSetOutFormat => "camera failed to set the output format"@,
        CameraError::FrameUnavailable => "Unable to get framebuffer"@,
        CameraError::Busy => "camera busy: a frame is checked out"@,
        CameraError::Sensor(code) => "sensor refused the setting: error code "@ + signed_decimal(
            code as int,
        ),
    }
}

impl CameraError {
    /// The text that describes the error.
    pub fn to_string(&self) -> (text: String)
        ensures
            text@ == camera_error_text(*self),
    {
        match self {
            CameraError::InitFailed(code) => {
                let mut s = String::from_str("camera init failed: error code ");
                push_signed_decimal(&mut s, *code as i64);
                s
            },
            CameraError::FailedToSetOutFormat => String::from_str(
                "camera failed to set the output format",
            ),
            CameraError::FrameUnavailable => String::from_str("Unable to get framebuffer"),
            CameraError::Busy => String::from_str("camera busy: a frame is checked out"),
            CameraError::Sensor(code) => {
                let mut s = String::from_str("sensor refused the setting: error code ");
                push_signed_decimal(&mut s, *code as i64);
                s
            },
        }
    }
}

/// One frame on loan from the driver. The bytes stay valid for as long as
/// the frame is held, and the frame cannot be copied: whoever holds it has
/// to hand it back, once.
#[derive(Debug)]
pub struct FrameBuffer<'a> {
    data: &'a [u8],
    width: usize,
    height: usize,
    format: PixelFormat,
    timestamp: Timeval,
}

/// A frame as specifications see it.
pub struct FrameView {
    pub data: Seq<u8>,
    pub width: usize,
    pub height: usize,
    pub format: PixelFormat,
    pub timestamp: Timeval,
}

impl<'a> View for FrameBuffer<'a> {
    type V = FrameView;

    closed spec fn view(&self) -> FrameView {
        FrameView {
            data: self.data@,
            width: self.width,
            height: self.height,
            format: self.format,
            timestamp: self.timestamp,
        }
    }
}

/// What a conversion yields: the bytes that the converter produced, or the
/// error where it produced none.
pub open spec fn conversion_result(converted: Option<Seq<u8>>) -> Result<Seq<u8>, CameraError> {
    match converted {
        Some(bytes) => Ok(bytes),
        None => Err(CameraError::FailedToSetOutFormat),
    }
}

/// The bytes of a result, where it has some.
pub open spec fn result_bytes(r: Result<Vec<u8>, CameraError>) -> Result<Seq<u8>, CameraError> {
    match r {
        Ok(bytes) => Ok(bytes@),
        Err(e) => Err(e),
    }
}

/// The bytes of an option, where it has some.
pub open spec fn option_bytes(o: Option<Vec<u8>>) -> Option<Seq<u8>> {
    match o {
        Some(bytes) => Some(bytes@),
        None => None,
    }
}

/// Turns what a converter handed back into a result.
pub fn converted_or_error(converted: Option<Vec<u8>>) -> (r: Result<Vec<u8>, CameraError>)
    ensures
        result_bytes(r) == conversion_result(option_bytes(converted)),
{
    match converted {
        Some(bytes) => Ok(bytes),
        None => Err(CameraError::FailedToSetOutFormat),
    }
}

impl<'a> FrameBuffer<'a> {
    /// A frame over the bytes `data`.
    pub fn new(
        data: &'a [u8],
        width: usize,
        height: usize,
        format: PixelFormat,
        timestamp: Timeval,
    ) -> (frame: FrameBuffer<'a>)
        ensures
            frame@ == (FrameView { data: data@, width, height, format, timestamp }),
    {
        FrameBuffer { data, width, height, format, timestamp }
    }

    /// The bytes of the frame, as the sensor delivered them.
    pub fn data(&self) -> (bytes: &'a [u8])
        ensures
            bytes@ == self@.data,
    {
        self.data
    }

    /// The width in pixels.
    pub fn width(&self) -> (w: usize)
        ensures
            w == self@.width,
    {
        self.width
    }

    /// The height in pixels.
    pub fn height(&self) -> (h: usize)
        ensures
            h == self@.height,
    {
        self.height
    }

    /// The pixel format of the bytes.
    pub fn format(&self) -> (f: PixelFormat)
        ensures
            f == self@.format,
    {
        self.format
    }

    /// The moment of capture.
    pub fn timestamp(&self) -> (t: Timeval)
        ensures
            t == self@.timestamp,
    {
        self.timestamp
    }

    /// The frame as JPEG.
    ///
    /// A frame that is JPEG already is copied out and `convert` is not
    /// called. Any other frame is handed to `convert` with the requested
    /// quality; `None` from it is a failed conversion.
    pub fn data_as_jpeg<F: FnOnce(u8) -> Option<Vec<u8>>>(&self, quality: u8, convert: F) -> (r:
        Result<Vec<u8>, CameraError>)
        requires
            self@.format != PixelFormat::Jpeg ==> convert.requires((quality,)),
        ensures
            self@.format == PixelFormat::Jpeg ==> result_bytes(r) == Ok::<Seq<u8>, CameraError>(
                self@.data,
            ),
            self@.format != PixelFormat::Jpeg ==> exists|converted: Option<Vec<u8>>|
                convert.ensures((quality,), converted) && result_bytes(r) == conversion_result(
                    option_bytes(converted),
                ),
    {
        match self.format {
            PixelFormat::Jpeg => Ok(slice_to_vec(self.data)),
            _ => {
                let converted = convert(quality);
                converted_or_error(converted)
            },
        }
    }

    /// The frame as a bitmap file. `convert` does the conversion; `None`
    /// from it is a failed conversion.
    pub fn data_as_bmp<F: FnOnce() -> Option<Vec<u8>>>(&self, convert: F) -> (r: Result<
        Vec<u8>,
        CameraError,
    >)
        requires
            convert.requires(()),
        ensures
            exists|converted: Option<Vec<u8>>|
                convert.ensures((), converted) && result_bytes(r) == conversion_result(
                    option_bytes(converted),
                ),
    {
        let converted = convert();
        converted_or_error(converted)
    }
}

/// What the driver is started with: the pins the sensor is wired to, its
/// clock, and the format, size and count of the frame buffers.
#[derive(Clone, Copy, Debug, PartialEq, Eq, Structural)]
pub struct CameraConfig {
    pub pin_pwdn: i32,
    pub pin_reset: i32,
    pub pin_xclk: i32,
    pub pin_d0: i32,
    pub pin_d1: i32,
    pub pin_d2: i32,
    pub pin_d3: i32,
    pub pin_d4: i32,
    pub pin_d5: i32,
    pub pin_d6: i32,
    pub pin_d7: i32,
    pub pin_vsync: i32,
    pub pin_href: i32,
    pub pin_pclk: i32,
    pub pin_sccb_sda: i32,
    pub pin_sccb_scl: i32,
    pub xclk_freq_hz: i32,
    pub pixel_format: PixelFormat,
    pub frame_size: FrameSize,
    pub jpeg_quality: i32,
    pub fb_count: usize,
    pub grab_mode: GrabMode,
}

/// The pin number that stands for "not connected".
pub const PIN_NOT_CONNECTED: i32 = -1;

/// The sensor clock, in hertz.
pub const XCLK_FREQ_HZ: i32 = 20000000;

/// The JPEG quality the sensor is asked for; lower is better.
pub const JPEG_QUALITY: i32 = 12;

/// The number of frame buffers in the driver's pool.
pub const FRAME_BUFFER_COUNT: usize = 4;

/// The number of a pin that may be absent, with `absent` in its place.
pub open spec fn pin_or(pin: Option<i32>, absent: i32) -> i32 {
    match pin {
        Some(p) => p,
        None => absent,
    }
}

/// The configuration for the given wiring, with the fixed clock, format,
/// size, quality, buffer count and grab mode.
pub open spec fn wiring_config(
    pin_pwdn: Option<i32>,
    pin_reset: Option<i32>,
    pin_xclk: i32,
    data_pins: [i32; 8],
    pin_vsync: i32,
    pin_href: i32,
    pin_pclk: i32,
    pin_sccb_sda: Option<i32>,
    pin_sccb_scl: Option<i32>,
) -> CameraConfig {
    CameraConfig {
        pin_pwdn: pin_or(pin_pwdn, PIN_NOT_CONNECTED),
        pin_reset: pin_or(pin_reset, PIN_NOT_CONNECTED),
        pin_xclk,
        pin_d0: data_pins[0],
        pin_d1: data_pins[1],
        pin_d2: data_pins[2],
        pin_d3: data_pins[3],
        pin_d4: data_pins[4],
        pin_d5: data_pins[5],
        pin_d6: data_pins[6],
        pin_d7: data_pins[7],
        pin_vsync,
        pin_href,
        pin_pclk,
        pin_sccb_sda: pin_or(pin_sccb_sda, 0),
        pin_sccb_scl: pin_or(pin_sccb_scl, 0),
        xclk_freq_hz: XCLK_FREQ_HZ,
        pixel_format: PixelFormat::Jpeg,
        frame_size: FrameSize::Vga,
        jpeg_quality: JPEG_QUALITY,
        fb_count: FRAME_BUFFER_COUNT,
        grab_mode: GrabMode::CameraGrabLatest,
    }
}

impl CameraConfig {
    /// The configuration for the given wiring. The power-down and reset pins
    /// may be left unconnected; the two control-bus pins default to pin 0.
    /// The sensor runs at 20 MHz and delivers VGA frames as JPEG of quality
    /// 12 into four buffers, newest frames first.
    pub fn for_wiring(
        pin_pwdn: Option<i32>,
        pin_reset: Option<i32>,
        pin_xclk: i32,
        data_pins: [i32; 8],
        pin_vsync: i32,
        pin_href: i32,
        pin_pclk: i32,
        pin_sccb_sda: Option<i32>,
        pin_sccb_scl: Option<i32>,
    ) -> (config: CameraConfig)
        ensures
            config == wiring_config(
                pin_pwdn,
                pin_reset,
                pin_xclk,
                data_pins,
                pin_vsync,
                pin_href,
                pin_pclk,
                pin_sccb_sda,
                pin_sccb_scl,
            ),
    {
        let pin_pwdn = if let Some(pwdn) = pin_pwdn {
            pwdn
        } else {
            PIN_NOT_CONNECTED
        };
        let pin_reset = if let Some(reset) = pin_reset {
            reset
        } else {
            PIN_NOT_CONNECTED
        };
        let pin_sccb_sda = if let Some(sda) = pin_sccb_sda {
            sda
        } else {
            0
        };
        let pin_sccb_scl = if let Some(scl) = pin_sccb_scl {
            scl
        } else {
            0
        };
        CameraConfig {
            pin_pwdn,
            pin_reset,
            pin_xclk,
            pin_d0: data_pins[0],
            pin_d1: data_pins[1],
            pin_d2: data_pins[2],
            pin_d3: data_pins[3],
            pin_d4: data_pins[4],
            pin_d5: data_pins[5],
            pin_d6: data_pins[6],
            pin_d7: data_pins[7],
            pin_vsync,
            pin_href,
            pin_pclk,
            pin_sccb_sda,
            pin_sccb_scl,
            xclk_freq_hz: XCLK_FREQ_HZ,
            pixel_format: PixelFormat::Jpeg,
            frame_size: FrameSize::Vga,
            jpeg_quality: JPEG_QUALITY,
            fb_count: FRAME_BUFFER_COUNT,
            grab_mode: GrabMode::CameraGrabLatest,
        }
    }
}

/// The started camera: its configuration and the number of frames that
/// are checked out of its pool.
#[derive(Clone, Copy, Debug, PartialEq, Eq, Structural)]
pub struct Camera {
    config: CameraConfig,
    outstanding: usize,
}

/// The count of frames out after an attempt to check one out: one more
/// where a frame was handed over.
pub open spec fn after_checkout(outstanding: nat, handed_over: bool) -> nat {
    if handed_over {
        outstanding + 1
    } else {
        outstanding
    }
}

/// The count of frames out after one is handed back.
pub open spec fn after_release(outstanding: nat) -> nat {
    if outstanding > 0 {
        (outstanding - 1) as nat
    } else {
        0
    }
}

impl Camera {
    /// The configuration the camera was started with.
    pub closed spec fn spec_config(&self) -> CameraConfig {
        self.config
    }

    /// The number of frames that are checked out.
    pub closed spec fn spec_outstanding(&self) -> nat {
        self.outstanding as nat
    }

    /// The number of buffers in the pool.
    pub open spec fn depth(&self) -> nat {
        self.spec_config().fb_count as nat
    }

    /// No more frames are out than the pool holds. This holds of every
    /// camera value.
    #[verifier::type_invariant]
    spec fn wf(&self) -> bool {
        self.outstanding <= self.config.fb_count
    }


    /// Starts the camera. `init` starts the driver with the configuration
    /// and returns its status, zero for success. Any other status aborts the
    /// start with `InitFailed` and that status.
    pub fn new<F: FnOnce(&CameraConfig) -> i32>(config: CameraConfig, init: F) -> (r: Result<
        Camera,
        CameraError,
    >)
        requires
            init.requires((&config,)),
        ensures
            exists|status: i32|
                init.ensures((&config,), status) && match r {
                    Ok(camera) => {
                        &&& status == 0
                        &&& camera.spec_config() == config
                        &&& camera.spec_outstanding() == 0
                    },
                    Err(e) => status != 0 && e == CameraError::InitFailed(status),
                },
    {
        let status = init(&config);
        if status == 0 {
            Ok(Camera { config, outstanding: 0 })
        } else {
            Err(CameraError::InitFailed(status))
        }
    }

    /// The configuration the camera was started with.
    #[verifier::when_used_as_spec(spec_config)]
    pub fn config(&self) -> (config: CameraConfig)
        ensures
            config == self.spec_config(),
    {
        self.config
    }

    /// The number of frames that are checked out; never more than the pool
    /// holds.
    pub fn outstanding(&self) -> (n: usize)
        ensures
            n == self.spec_outstanding(),
            n <= self.depth(),
    {
        proof {
            use_type_invariant(self);
        }
        self.outstanding
    }

    /// Asks for a frame.
    ///
    /// While every buffer of the pool is out, no frame is handed over and
    /// `capture` is not called. Otherwise `capture` asks the driver, and a
    /// frame from it counts as checked out.
    pub fn get_framebuffer<'a, F: FnOnce() -> Option<FrameBuffer<'a>>>(
        &mut self,
        capture: F,
    ) -> (frame: Option<FrameBuffer<'a>>)
        requires
            capture.requires(()),
        ensures
            final(self).spec_config() == old(self).spec_config(),
            final(self).spec_outstanding() == after_checkout(
                old(self).spec_outstanding(),
                frame is Some,
            ),
            old(self).spec_outstanding() >= old(self).depth() ==> frame is None,
            old(self).spec_outstanding() < old(self).depth() ==> capture.ensures((), frame),
    {
        if self.outstanding >= self.config.fb_count {
            None
        } else {
            let frame = capture();
            if frame.is_some() {
                self.outstanding = self.outstanding + 1;
            }
            frame
        }
    }

    /// Checks a frame out, or reports that none is available. This is
    /// `get_framebuffer` with an error in place of `None`.
    pub fn checkout_frame<'a, F: FnOnce() -> Option<FrameBuffer<'a>>>(
        &mut self,
        capture: F,
    ) -> (r: Result<FrameBuffer<'a>, CameraError>)
        requires
            capture.requires(()),
        ensures
            final(self).spec_config() == old(self).spec_config(),
            final(self).spec_outstanding() == after_checkout(old(self).spec_outstanding(), r is Ok),
            r matches Err(e) ==> e == CameraError::FrameUnavailable,
            old(self).spec_outstanding() >= old(self).depth() ==> r is Err,
            old(self).spec_outstanding() < old(self).depth() ==> exists|captured: Option<
                FrameBuffer<'a>,
            >|
                capture.ensures((), captured) && match captured {
                    Some(frame) => r == Ok::<FrameBuffer<'a>, CameraError>(frame),
                    None => r is Err,
                },
    {
        match self.get_framebuffer(capture) {
            Some(frame) => Ok(frame),
            None => Err(CameraError::FrameUnavailable),
        }
    }

    /// Hands a frame back. The frame is consumed, so it cannot be handed
    /// back twice; `give_back` returns its buffer to the driver.
    pub fn release_frame<'a, G: FnOnce(FrameBuffer<'a>)>(
        &mut self,
        frame: FrameBuffer<'a>,
        give_back: G,
    )
        requires
            give_back.requires((frame,)),
        ensures
            final(self).spec_config() == old(self).spec_config(),
            final(self).spec_outstanding() == after_release(old(self).spec_outstanding()),
            give_back.ensures((frame,), ()),
    {
        proof {
            use_type_invariant(&*self);
        }
        give_back(frame);
        if self.outstanding > 0 {
            self.outstanding = self.outstanding - 1;
        }
    }

    /// Changes one numbered setting of the sensor.
    ///
    /// While a frame is checked out the setting is refused with `Busy` and
    /// the sensor is not touched. Otherwise the setting is sent to the
    /// sensor, and the sensor's status decides.
    pub fn configure<F: Fn(SensorCommand) -> i32>(
        &self,
        sensor: &CameraSensor<F>,
        param: SensorParam,
        value: i32,
    ) -> (r: Result<(), CameraError>)
        requires
            self.spec_outstanding() == 0 ==> sensor.runner().requires(
                (SensorCommand::SetParam(param, value),),
            ),
        ensures
            self.spec_outstanding() > 0 ==> r == Err::<(), CameraError>(CameraError::Busy),
            self.spec_outstanding() == 0 ==> carried_out(
                sensor.runner(),
                SensorCommand::SetParam(param, value),
                r,
            ),
    {
        if self.outstanding > 0 {
            Err(CameraError::Busy)
        } else {
            sensor.send(SensorCommand::SetParam(param, value))
        }
    }

    /// The sensor of the camera, reached through `run`.
    pub fn sensor<F: Fn(SensorCommand) -> i32>(&self, run: F) -> (sensor: CameraSensor<F>)
        ensures
            sensor.runner() == run,
    {
        CameraSensor::new(run)
    }
}

/// A checkout followed by the release of that frame leaves the count of
/// frames out where it was.
pub proof fn law_checkout_release_restores(outstanding: nat)
    ensures
        after_release(after_checkout(outstanding, true)) == outstanding,
{
}

/// A failed checkout takes nothing from the pool.
pub proof fn law_failed_checkout_takes_nothing(outstanding: nat)
    ensures
        after_checkout(outstanding, false) == outstanding,
{
}

} // verus!
