use camera_node::camera::{
    converted_or_error, Camera, CameraConfig, CameraError, FrameBuffer, FrameSize, GrabMode,
    PixelFormat, Timeval, FRAME_BUFFER_COUNT, JPEG_QUALITY, PIN_NOT_CONNECTED, XCLK_FREQ_HZ,
};
use camera_node::sensor::{
    flag, CameraSensor, GainCeiling, PllSettings, RawResolution, SensorCommand, SensorParam,
};
use std::cell::Cell;

const JPEG_BYTES: [u8; 6] = [0xff, 0xd8, 0xff, 0xe0, 0x00, 0x10];
const RAW_BYTES: [u8; 4] = [1, 2, 3, 4];

fn stamp() -> Timeval {
    Timeval { tv_sec: 1_700_000_000, tv_usec: 250_000 }
}

fn jpeg_frame() -> FrameBuffer<'static> {
    FrameBuffer::new(&JPEG_BYTES, 640, 480, PixelFormat::Jpeg, stamp())
}

fn raw_frame() -> FrameBuffer<'static> {
    FrameBuffer::new(&RAW_BYTES, 2, 1, PixelFormat::Rgb565, stamp())
}

fn board_config() -> CameraConfig {
    CameraConfig::for_wiring(
        None,
        None,
        4,
        [34, 13, 14, 35, 39, 12, 15, 36],
        5,
        27,
        25,
        Some(18),
        Some(23),
    )
}

fn started_camera() -> Camera {
    Camera::new(board_config(), |_| 0).unwrap()
}

#[test]
fn grab_mode_converts_both_ways() {
    assert_eq!(u32::from(GrabMode::CameraGrabWhenEmpty), 0);
    assert_eq!(u32::from(GrabMode::CameraGrabLatest), 1);
    assert_eq!(GrabMode::from(0u32), GrabMode::CameraGrabWhenEmpty);
    assert_eq!(GrabMode::from(1u32), GrabMode::CameraGrabLatest);
    let code: u32 = GrabMode::CameraGrabLatest.into();
    assert_eq!(GrabMode::from(code), GrabMode::CameraGrabLatest);
}

#[test]
fn unknown_grab_mode_falls_back_to_when_empty() {
    assert_eq!(GrabMode::from(2u32), GrabMode::CameraGrabWhenEmpty);
    assert_eq!(GrabMode::from(u32::MAX), GrabMode::CameraGrabWhenEmpty);
}

#[test]
fn wiring_config_has_the_fixed_settings() {
    let c = board_config();
    assert_eq!(c.pin_pwdn, -1);
    assert_eq!(c.pin_reset, -1);
    assert_eq!(c.pin_pwdn, PIN_NOT_CONNECTED);
    assert_eq!(c.pin_xclk, 4);
    assert_eq!(
        [c.pin_d0, c.pin_d1, c.pin_d2, c.pin_d3, c.pin_d4, c.pin_d5, c.pin_d6, c.pin_d7],
        [34, 13, 14, 35, 39, 12, 15, 36]
    );
    assert_eq!(c.pin_vsync, 5);
    assert_eq!(c.pin_href, 27);
    assert_eq!(c.pin_pclk, 25);
    assert_eq!(c.pin_sccb_sda, 18);
    assert_eq!(c.pin_sccb_scl, 23);
    assert_eq!(c.xclk_freq_hz, 20_000_000);
    assert_eq!(c.xclk_freq_hz, XCLK_FREQ_HZ);
    assert_eq!(c.pixel_format, PixelFormat::Jpeg);
    assert_eq!(c.frame_size, FrameSize::Vga);
    assert_eq!(c.jpeg_quality, 12);
    assert_eq!(c.jpeg_quality, JPEG_QUALITY);
    assert_eq!(c.fb_count, 4);
    assert_eq!(c.fb_count, FRAME_BUFFER_COUNT);
    assert_eq!(c.grab_mode, GrabMode::CameraGrabLatest);
}

#[test]
fn wiring_config_with_optional_pins() {
    let c = CameraConfig::for_wiring(Some(32), Some(33), 0, [0; 8], 0, 0, 0, None, None);
    assert_eq!(c.pin_pwdn, 32);
    assert_eq!(c.pin_reset, 33);
    assert_eq!(c.pin_sccb_sda, 0);
    assert_eq!(c.pin_sccb_scl, 0);
}

#[test]
fn camera_starts_when_the_driver_reports_success() {
    let seen = Cell::new(0);
    let camera = Camera::new(board_config(), |config| {
        seen.set(config.pin_xclk);
        0
    })
    .unwrap();
    assert_eq!(seen.get(), 4);
    assert_eq!(camera.outstanding(), 0);
    assert_eq!(camera.config(), board_config());
}

#[test]
fn camera_start_failure_is_reported_with_the_status() {
    let r = Camera::new(board_config(), |_| 0x20001);
    assert_eq!(r, Err(CameraError::InitFailed(0x20001)));
    assert_eq!(
        CameraError::InitFailed(0x20001).to_string(),
        "camera init failed: error code 131073"
    );
    assert_eq!(Camera::new(board_config(), |_| -1), Err(CameraError::InitFailed(-1)));
}

#[test]
fn camera_error_texts() {
    assert_eq!(
        CameraError::FailedToSetOutFormat.to_string(),
        "camera failed to set the output format"
    );
    assert_eq!(CameraError::FrameUnavailable.to_string(), "Unable to get framebuffer");
    assert_eq!(CameraError::Busy.to_string(), "camera busy: a frame is checked out");
    assert_eq!(
        CameraError::Sensor(-3).to_string(),
        "sensor refused the setting: error code -3"
    );
}

#[test]
fn frame_accessors() {
    let f = jpeg_frame();
    assert_eq!(f.data(), &JPEG_BYTES[..]);
    assert_eq!(f.width(), 640);
    assert_eq!(f.height(), 480);
    assert_eq!(f.format(), PixelFormat::Jpeg);
    assert_eq!(f.timestamp(), stamp());
}

#[test]
fn jpeg_frame_is_copied_without_conversion() {
    let called = Cell::new(false);
    let r = jpeg_frame().data_as_jpeg(80, |_| {
        called.set(true);
        None
    });
    assert_eq!(r, Ok(JPEG_BYTES.to_vec()));
    assert!(!called.get());
}

#[test]
fn other_frame_is_converted_with_the_requested_quality() {
    let asked = Cell::new(0u8);
    let r = raw_frame().data_as_jpeg(80, |quality| {
        asked.set(quality);
        Some(vec![9, 9, 9])
    });
    assert_eq!(r, Ok(vec![9, 9, 9]));
    assert_eq!(asked.get(), 80);
}

#[test]
fn failed_jpeg_conversion_is_an_error() {
    let r = raw_frame().data_as_jpeg(10, |_| None);
    assert_eq!(r, Err(CameraError::FailedToSetOutFormat));
}

#[test]
fn bitmap_conversion() {
    assert_eq!(jpeg_frame().data_as_bmp(|| Some(vec![0x42, 0x4d])), Ok(vec![0x42, 0x4d]));
    assert_eq!(raw_frame().data_as_bmp(|| None), Err(CameraError::FailedToSetOutFormat));
}

#[test]
fn converted_or_error_maps_both_outcomes() {
    assert_eq!(converted_or_error(Some(vec![1, 2])), Ok(vec![1, 2]));
    assert_eq!(converted_or_error(Some(vec![])), Ok(vec![]));
    assert_eq!(converted_or_error(None), Err(CameraError::FailedToSetOutFormat));
}

#[test]
fn checkout_counts_the_frame_and_release_restores_the_baseline() {
    let mut camera = started_camera();
    let returned = Cell::new(0);
    for _ in 0..10 {
        assert_eq!(camera.outstanding(), 0);
        let frame = camera.checkout_frame(|| Some(jpeg_frame())).unwrap();
        assert_eq!(camera.outstanding(), 1);
        assert_eq!(frame.data(), &JPEG_BYTES[..]);
        camera.release_frame(frame, |_| returned.set(returned.get() + 1));
        assert_eq!(camera.outstanding(), 0);
    }
    assert_eq!(returned.get(), 10);
}

#[test]
fn failed_checkout_takes_nothing_from_the_pool() {
    let mut camera = started_camera();
    assert_eq!(camera.checkout_frame(|| None).err(), Some(CameraError::FrameUnavailable));
    assert_eq!(camera.outstanding(), 0);
    assert!(camera.get_framebuffer(|| None).is_none());
    assert_eq!(camera.outstanding(), 0);
    assert!(camera.checkout_frame(|| Some(jpeg_frame())).is_ok());
    assert_eq!(camera.outstanding(), 1);
}

#[test]
fn exhausted_pool_does_not_ask_the_driver() {
    let mut camera = started_camera();
    let mut held = Vec::new();
    for n in 0..4 {
        assert_eq!(camera.outstanding(), n);
        held.push(camera.get_framebuffer(|| Some(jpeg_frame())).unwrap());
    }
    assert_eq!(camera.outstanding(), 4);
    let asked = Cell::new(false);
    let r = camera.get_framebuffer(|| {
        asked.set(true);
        Some(jpeg_frame())
    });
    assert!(r.is_none());
    assert!(!asked.get());
    assert_eq!(camera.outstanding(), 4);
    let asked = Cell::new(false);
    let r = camera.checkout_frame(|| {
        asked.set(true);
        Some(jpeg_frame())
    });
    assert_eq!(r.err(), Some(CameraError::FrameUnavailable));
    assert!(!asked.get());

    let mut left = 4;
    for frame in held {
        camera.release_frame(frame, |_| ());
        left -= 1;
        assert_eq!(camera.outstanding(), left);
    }
    assert!(camera.checkout_frame(|| Some(jpeg_frame())).is_ok());
}

#[test]
fn release_without_checkout_stays_at_zero() {
    let mut camera = started_camera();
    let given_back = Cell::new(false);
    camera.release_frame(jpeg_frame(), |_| given_back.set(true));
    assert!(given_back.get());
    assert_eq!(camera.outstanding(), 0);
}

#[test]
fn release_hands_the_same_frame_back() {
    let mut camera = started_camera();
    let frame = camera.checkout_frame(|| Some(raw_frame())).unwrap();
    let seen = Cell::new(0usize);
    camera.release_frame(frame, |f| seen.set(f.data().len() + f.width()));
    assert_eq!(seen.get(), RAW_BYTES.len() + 2);
}

#[test]
fn configure_applies_the_setting() {
    let camera = started_camera();
    let seen = Cell::new(SensorCommand::Reset);
    let sensor = camera.sensor(|command| {
        seen.set(command);
        0
    });
    assert_eq!(camera.configure(&sensor, SensorParam::Brightness, 2), Ok(()));
    assert_eq!(seen.get(), SensorCommand::SetParam(SensorParam::Brightness, 2));
}

#[test]
fn configure_reports_the_sensor_status() {
    let camera = started_camera();
    let sensor = CameraSensor::new(|_| -1);
    let r = camera.configure(&sensor, SensorParam::Vflip, flag(true));
    assert_eq!(r, Err(CameraError::Sensor(-1)));
}

#[test]
fn configure_is_refused_while_a_frame_is_out() {
    let mut camera = started_camera();
    let frame = camera.checkout_frame(|| Some(jpeg_frame())).unwrap();
    let called = Cell::new(false);
    let sensor = CameraSensor::new(|_| {
        called.set(true);
        0
    });
    assert_eq!(camera.configure(&sensor, SensorParam::Contrast, 1), Err(CameraError::Busy));
    assert!(!called.get());
    camera.release_frame(frame, |_| ());
    assert_eq!(camera.configure(&sensor, SensorParam::Contrast, 1), Ok(()));
    assert!(called.get());
}

#[test]
fn flag_is_one_or_zero() {
    assert_eq!(flag(true), 1);
    assert_eq!(flag(false), 0);
}

fn sent_by(call: impl FnOnce(&CameraSensor<&dyn Fn(SensorCommand) -> i32>)) -> SensorCommand {
    let seen = Cell::new(SensorCommand::Reset);
    let run = |command: SensorCommand| {
        seen.set(command);
        0
    };
    let sensor: CameraSensor<&dyn Fn(SensorCommand) -> i32> = CameraSensor::new(&run);
    call(&sensor);
    seen.get()
}

#[test]
fn numbered_settings_send_their_number() {
    assert_eq!(sent_by(|s| s.set_contrast(2).unwrap()), SensorCommand::SetParam(SensorParam::Contrast, 2));
    assert_eq!(sent_by(|s| s.set_brightness(-2).unwrap()), SensorCommand::SetParam(SensorParam::Brightness, -2));
    assert_eq!(sent_by(|s| s.set_saturation(1).unwrap()), SensorCommand::SetParam(SensorParam::Saturation, 1));
    assert_eq!(sent_by(|s| s.set_sharpness(3).unwrap()), SensorCommand::SetParam(SensorParam::Sharpness, 3));
    assert_eq!(sent_by(|s| s.set_denoise(4).unwrap()), SensorCommand::SetParam(SensorParam::Denoise, 4));
    assert_eq!(sent_by(|s| s.set_quality(12).unwrap()), SensorCommand::SetParam(SensorParam::Quality, 12));
    assert_eq!(sent_by(|s| s.set_agc_gain(5).unwrap()), SensorCommand::SetParam(SensorParam::AgcGain, 5));
    assert_eq!(sent_by(|s| s.set_aec_value(300).unwrap()), SensorCommand::SetParam(SensorParam::AecValue, 300));
    assert_eq!(sent_by(|s| s.set_special_effect(6).unwrap()), SensorCommand::SetParam(SensorParam::SpecialEffect, 6));
    assert_eq!(sent_by(|s| s.set_wb_mode(4).unwrap()), SensorCommand::SetParam(SensorParam::WbMode, 4));
    assert_eq!(sent_by(|s| s.set_ae_level(-1).unwrap()), SensorCommand::SetParam(SensorParam::AeLevel, -1));
}

#[test]
fn switches_send_one_or_zero() {
    assert_eq!(sent_by(|s| s.set_colorbar(true).unwrap()), SensorCommand::SetParam(SensorParam::Colorbar, 1));
    assert_eq!(sent_by(|s| s.set_colorbar(false).unwrap()), SensorCommand::SetParam(SensorParam::Colorbar, 0));
    assert_eq!(sent_by(|s| s.set_whitebal(true).unwrap()), SensorCommand::SetParam(SensorParam::Whitebal, 1));
    assert_eq!(sent_by(|s| s.set_gain_ctrl(false).unwrap()), SensorCommand::SetParam(SensorParam::GainCtrl, 0));
    assert_eq!(sent_by(|s| s.set_exposure_ctrl(true).unwrap()), SensorCommand::SetParam(SensorParam::ExposureCtrl, 1));
    assert_eq!(sent_by(|s| s.set_hmirror(true).unwrap()), SensorCommand::SetParam(SensorParam::Hmirror, 1));
    assert_eq!(sent_by(|s| s.set_vflip(false).unwrap()), SensorCommand::SetParam(SensorParam::Vflip, 0));
    assert_eq!(sent_by(|s| s.set_aec2(true).unwrap()), SensorCommand::SetParam(SensorParam::Aec2, 1));
    assert_eq!(sent_by(|s| s.set_awb_gain(true).unwrap()), SensorCommand::SetParam(SensorParam::AwbGain, 1));
    assert_eq!(sent_by(|s| s.set_dcw(false).unwrap()), SensorCommand::SetParam(SensorParam::Dcw, 0));
    assert_eq!(sent_by(|s| s.set_bpc(true).unwrap()), SensorCommand::SetParam(SensorParam::Bpc, 1));
    assert_eq!(sent_by(|s| s.set_wpc(true).unwrap()), SensorCommand::SetParam(SensorParam::Wpc, 1));
    assert_eq!(sent_by(|s| s.set_raw_gma(false).unwrap()), SensorCommand::SetParam(SensorParam::RawGma, 0));
    assert_eq!(sent_by(|s| s.set_lenc(true).unwrap()), SensorCommand::SetParam(SensorParam::Lenc, 1));
}

#[test]
fn other_commands_carry_their_arguments() {
    assert_eq!(sent_by(|s| s.init_status().unwrap()), SensorCommand::InitStatus);
    assert_eq!(sent_by(|s| s.reset().unwrap()), SensorCommand::Reset);
    assert_eq!(
        sent_by(|s| s.set_pixformat(PixelFormat::Grayscale).unwrap()),
        SensorCommand::SetPixformat(PixelFormat::Grayscale)
    );
    assert_eq!(
        sent_by(|s| s.set_framesize(FrameSize::Svga).unwrap()),
        SensorCommand::SetFramesize(FrameSize::Svga)
    );
    assert_eq!(
        sent_by(|s| s.set_gainceiling(GainCeiling::X16).unwrap()),
        SensorCommand::SetGainceiling(GainCeiling::X16)
    );
    assert_eq!(
        sent_by(|s| s.get_reg(0x12, 0xff).unwrap()),
        SensorCommand::GetReg { reg: 0x12, mask: 0xff }
    );
    assert_eq!(
        sent_by(|s| s.set_reg(0x12, 0x0f, 3).unwrap()),
        SensorCommand::SetReg { reg: 0x12, mask: 0x0f, value: 3 }
    );
    assert_eq!(
        sent_by(|s| s.set_xclk(0, 20).unwrap()),
        SensorCommand::SetXclk { timer: 0, xclk: 20 }
    );
    assert_eq!(
        sent_by(|s| s.set_res_raw(1, 2, 3, 4, 5, 6, 7, 8, 9, 10, true, false).unwrap()),
        SensorCommand::SetResRaw(RawResolution {
            start_x: 1,
            start_y: 2,
            end_x: 3,
            end_y: 4,
            offset_x: 5,
            offset_y: 6,
            total_x: 7,
            total_y: 8,
            output_x: 9,
            output_y: 10,
            scale: true,
            binning: false,
        })
    );
    assert_eq!(
        sent_by(|s| s.set_pll(1, 2, 3, 4, 5, 6, 7, 8).unwrap()),
        SensorCommand::SetPll(PllSettings {
            bypass: 1,
            mul: 2,
            sys: 3,
            root: 4,
            pre: 5,
            seld5: 6,
            pclken: 7,
            pclk: 8,
        })
    );
}

#[test]
fn a_refused_command_is_an_error_with_the_status() {
    let sensor = CameraSensor::new(|_| 0x105);
    assert_eq!(sensor.reset(), Err(CameraError::Sensor(0x105)));
    assert_eq!(sensor.set_vflip(true), Err(CameraError::Sensor(0x105)));
    assert_eq!(sensor.send(SensorCommand::InitStatus), Err(CameraError::Sensor(0x105)));
    let sensor = CameraSensor::new(|_| -1);
    assert_eq!(sensor.set_quality(10), Err(CameraError::Sensor(-1)));
}
