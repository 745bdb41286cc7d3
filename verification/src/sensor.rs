//! The settings of the camera's sensor.
//!
//! A setting is a command to the sensor. The sensor itself is reached
//! through a function that the caller hands in: it carries one command out
//! and returns the sensor's status, zero for success.

use crate::camera::{CameraError, FrameSize, PixelFormat};
use vstd::prelude::*;

verus! {

/// A setting of the sensor that takes one number.
#[derive(Clone, Copy, Debug, PartialEq, Eq, Structural)]
pub enum SensorParam {
    Contrast,
    Brightness,
    Saturation,
    Sharpness,
    Denoise,
    Quality,
    Colorbar,
    Whitebal,
    GainCtrl,
    ExposureCtrl,
    Hmirror,
    Vflip,
    Aec2,
    AwbGain,
    AgcGain,
    AecValue,
    SpecialEffect,
    WbMode,
    AeLevel,
    Dcw,
    Bpc,
    Wpc,
    RawGma,
    Lenc,
}

/// The highest gain that the automatic gain control may choose.
#[derive(Clone, Copy, Debug, PartialEq, Eq, Structural)]
pub enum GainCeiling {
    X2,
    X4,
    X8,
    X16,
    X32,
    X64,
    X128,
}

/// The window of the sensor array that is read out, and how it is scaled.
#[derive(Clone, Copy, Debug, PartialEq, Eq, Structural)]
pub struct RawResolution {
    pub start_x: i32,
    pub start_y: i32,
    pub end_x: i32,
    pub end_y: i32,
    pub offset_x: i32,
    pub offset_y: i32,
    pub total_x: i32,
    pub total_y: i32,
    pub output_x: i32,
    pub output_y: i32,
    pub scale: bool,
    pub binning: bool,
}

/// The settings of the sensor's clock multiplier.
#[derive(Clone, Copy, Debug, PartialEq, Eq, Structural)]
pub struct PllSettings {
    pub bypass: i32,
    pub mul: i32,
    pub sys: i32,
    pub root: i32,
    pub pre: i32,
    pub seld5: i32,
    pub pclken: i32,
    pub pclk: i32,
}

/// One command to the sensor.
#[derive(Clone, Copy, Debug, PartialEq, Eq, Structural)]
pub enum SensorCommand {
    InitStatus,
    Reset,
    SetPixformat(PixelFormat),
    SetFramesize(FrameSize),
    SetGainceiling(GainCeiling),
    /// Sets the numbered setting to the value.
    SetParam(SensorParam, i32),
    GetReg { reg: i32, mask: i32 },
    SetReg { reg: i32, mask: i32, value: i32 },
    SetResRaw(RawResolution),
    SetPll(PllSettings),
    SetXclk { timer: i32, xclk: i32 },
}

/// The number that switches a setting on or off: 1 for on, 0 for off.
pub open spec fn flag_value(enable: bool) -> i32 {
    if enable {
        1
    } else {
        0
    }
}

/// The number that switches a setting on or off: 1 for on, 0 for off.
pub fn flag(enable: bool) -> (value: i32)
    ensures
        value == flag_value(enable),
{
    if enable {
        1
    } else {
        0
    }
}

/// What a status of the sensor means: zero is success, anything else is the
/// error with that status.
pub open spec fn status_result(status: i32) -> Result<(), CameraError> {
    if status == 0 {
        Ok(())
    } else {
        Err(CameraError::Sensor(status))
    }
}

/// Whether `r` is the outcome of carrying `command` out through `run`: the
/// meaning of a status that `run` may return for the command.
pub open spec fn carried_out<F: Fn(SensorCommand) -> i32>(
    run: F,
    command: SensorCommand,
    r: Result<(), CameraError>,
) -> bool {
    exists|status: i32| #[trigger] run.ensures((command,), status) && r == status_result(status)
}

/// The sensor, reached through `run`.
pub struct CameraSensor<F> {
    run: F,
}

impl<F: Fn(SensorCommand) -> i32> CameraSensor<F> {
    /// The function through which the sensor is reached.
    pub closed spec fn runner(&self) -> F {
        self.run
    }

    /// The sensor that is reached through `run`.
    pub fn new(run: F) -> (sensor: CameraSensor<F>)
        ensures
            sensor.runner() == run,
    {
        CameraSensor { run }
    }

    /// Carries one command out and says what the sensor's status means.
    pub fn send(&self, command: SensorCommand) -> (r: Result<(), CameraError>)
        requires
            self.runner().requires((command,)),
        ensures
            carried_out(self.runner(), command, r),
    {
        let status = (self.run)(command);
        if status == 0 {
            Ok(())
        } else {
            Err(CameraError::Sensor(status))
        }
    }

    /// Asks the sensor for its status after the start.
    pub fn init_status(&self) -> (r: Result<(), CameraError>)
        requires
            self.runner().requires((SensorCommand::InitStatus,)),
        ensures
            carried_out(self.runner(), SensorCommand::InitStatus, r),
    {
        self.send(SensorCommand::InitStatus)
    }

    /// Resets the sensor.
    pub fn reset(&self) -> (r: Result<(), CameraError>)
        requires
            self.runner().requires((SensorCommand::Reset,)),
        ensures
            carried_out(self.runner(), SensorCommand::Reset, r),
    {
        self.send(SensorCommand::Reset)
    }

    /// Sets the pixel format of the frames.
    pub fn set_pixformat(&self, format: PixelFormat) -> (r: Result<(), CameraError>)
        requires
            self.runner().requires((SensorCommand::SetPixformat(format),)),
        ensures
            carried_out(self.runner(), SensorCommand::SetPixformat(format), r),
    {
        self.send(SensorCommand::SetPixformat(format))
    }

    /// Sets the size of the frames.
    pub fn set_framesize(&self, framesize: FrameSize) -> (r: Result<(), CameraError>)
        requires
            self.runner().requires((SensorCommand::SetFramesize(framesize),)),
        ensures
            carried_out(self.runner(), SensorCommand::SetFramesize(framesize), r),
    {
        self.send(SensorCommand::SetFramesize(framesize))
    }

    /// Sets the contrast.
    pub fn set_contrast(&self, level: i32) -> (r: Result<(), CameraError>)
        requires
            self.runner().requires((SensorCommand::SetParam(SensorParam::Contrast, level),)),
        ensures
            carried_out(self.runner(), SensorCommand::SetParam(SensorParam::Contrast, level), r),
    {
        self.send(SensorCommand::SetParam(SensorParam::Contrast, level))
    }

    /// Sets the brightness.
    pub fn set_brightness(&self, level: i32) -> (r: Result<(), CameraError>)
        requires
            self.runner().requires((SensorCommand::SetParam(SensorParam::Brightness, level),)),
        ensures
            carried_out(self.runner(), SensorCommand::SetParam(SensorParam::Brightness, level), r),
    {
        self.send(SensorCommand::SetParam(SensorParam::Brightness, level))
    }

    /// Sets the colour saturation.
    pub fn set_saturation(&self, level: i32) -> (r: Result<(), CameraError>)
        requires
            self.runner().requires((SensorCommand::SetParam(SensorParam::Saturation, level),)),
        ensures
            carried_out(self.runner(), SensorCommand::SetParam(SensorParam::Saturation, level), r),
    {
        self.send(SensorCommand::SetParam(SensorParam::Saturation, level))
    }

    /// Sets the sharpness.
    pub fn set_sharpness(&self, level: i32) -> (r: Result<(), CameraError>)
        requires
            self.runner().requires((SensorCommand::SetParam(SensorParam::Sharpness, level),)),
        ensures
            carried_out(self.runner(), SensorCommand::SetParam(SensorParam::Sharpness, level), r),
    {
        self.send(SensorCommand::SetParam(SensorParam::Sharpness, level))
    }

    /// Sets the strength of the noise filter.
    pub fn set_denoise(&self, level: i32) -> (r: Result<(), CameraError>)
        requires
            self.runner().requires((SensorCommand::SetParam(SensorParam::Denoise, level),)),
        ensures
            carried_out(self.runner(), SensorCommand::SetParam(SensorParam::Denoise, level), r),
    {
        self.send(SensorCommand::SetParam(SensorParam::Denoise, level))
    }

    /// Sets the highest gain that the gain control may choose.
    pub fn set_gainceiling(&self, gainceiling: GainCeiling) -> (r: Result<(), CameraError>)
        requires
            self.runner().requires((SensorCommand::SetGainceiling(gainceiling),)),
        ensures
            carried_out(self.runner(), SensorCommand::SetGainceiling(gainceiling), r),
    {
        self.send(SensorCommand::SetGainceiling(gainceiling))
    }

    /// Sets the JPEG quality; lower is better.
    pub fn set_quality(&self, quality: i32) -> (r: Result<(), CameraError>)
        requires
            self.runner().requires((SensorCommand::SetParam(SensorParam::Quality, quality),)),
        ensures
            carried_out(self.runner(), SensorCommand::SetParam(SensorParam::Quality, quality), r),
    {
        self.send(SensorCommand::SetParam(SensorParam::Quality, quality))
    }

    /// Switches the colour bar test pattern on or off.
    pub fn set_colorbar(&self, enable: bool) -> (r: Result<(), CameraError>)
        requires
            self.runner().requires((SensorCommand::SetParam(SensorParam::Colorbar, flag_value(enable)),)),
        ensures
            carried_out(self.runner(), SensorCommand::SetParam(SensorParam::Colorbar, flag_value(enable)), r),
    {
        self.send(SensorCommand::SetParam(SensorParam::Colorbar, flag(enable)))
    }

    /// Switches the automatic white balance on or off.
    pub fn set_whitebal(&self, enable: bool) -> (r: Result<(), CameraError>)
        requires
            self.runner().requires((SensorCommand::SetParam(SensorParam::Whitebal, flag_value(enable)),)),
        ensures
            carried_out(self.runner(), SensorCommand::SetParam(SensorParam::Whitebal, flag_value(enable)), r),
    {
        self.send(SensorCommand::SetParam(SensorParam::Whitebal, flag(enable)))
    }

    /// Switches the automatic gain control on or off.
    pub fn set_gain_ctrl(&self, enable: bool) -> (r: Result<(), CameraError>)
        requires
            self.runner().requires((SensorCommand::SetParam(SensorParam::GainCtrl, flag_value(enable)),)),
        ensures
            carried_out(self.runner(), SensorCommand::SetParam(SensorParam::GainCtrl, flag_value(enable)), r),
    {
        self.send(SensorCommand::SetParam(SensorParam::GainCtrl, flag(enable)))
    }

    /// Switches the automatic exposure control on or off.
    pub fn set_exposure_ctrl(&self, enable: bool) -> (r: Result<(), CameraError>)
        requires
            self.runner().requires((SensorCommand::SetParam(SensorParam::ExposureCtrl, flag_value(enable)),)),
        ensures
            carried_out(self.runner(), SensorCommand::SetParam(SensorParam::ExposureCtrl, flag_value(enable)), r),
    {
        self.send(SensorCommand::SetParam(SensorParam::ExposureCtrl, flag(enable)))
    }

    /// Switches the horizontal mirror on or off.
    pub fn set_hmirror(&self, enable: bool) -> (r: Result<(), CameraError>)
        requires
            self.runner().requires((SensorCommand::SetParam(SensorParam::Hmirror, flag_value(enable)),)),
        ensures
            carried_out(self.runner(), SensorCommand::SetParam(SensorParam::Hmirror, flag_value(enable)), r),
    {
        self.send(SensorCommand::SetParam(SensorParam::Hmirror, flag(enable)))
    }

    /// Switches the vertical flip on or off.
    pub fn set_vflip(&self, enable: bool) -> (r: Result<(), CameraError>)
        requires
            self.runner().requires((SensorCommand::SetParam(SensorParam::Vflip, flag_value(enable)),)),
        ensures
            carried_out(self.runner(), SensorCommand::SetParam(SensorParam::Vflip, flag_value(enable)), r),
    {
        self.send(SensorCommand::SetParam(SensorParam::Vflip, flag(enable)))
    }

    /// Switches the second exposure algorithm on or off.
    pub fn set_aec2(&self, enable: bool) -> (r: Result<(), CameraError>)
        requires
            self.runner().requires((SensorCommand::SetParam(SensorParam::Aec2, flag_value(enable)),)),
        ensures
            carried_out(self.runner(), SensorCommand::SetParam(SensorParam::Aec2, flag_value(enable)), r),
    {
        self.send(SensorCommand::SetParam(SensorParam::Aec2, flag(enable)))
    }

    /// Switches the white balance gain on or off.
    pub fn set_awb_gain(&self, enable: bool) -> (r: Result<(), CameraError>)
        requires
            self.runner().requires((SensorCommand::SetParam(SensorParam::AwbGain, flag_value(enable)),)),
        ensures
            carried_out(self.runner(), SensorCommand::SetParam(SensorParam::AwbGain, flag_value(enable)), r),
    {
        self.send(SensorCommand::SetParam(SensorParam::AwbGain, flag(enable)))
    }

    /// Sets the gain for when the gain control is off.
    pub fn set_agc_gain(&self, gain: i32) -> (r: Result<(), CameraError>)
        requires
            self.runner().requires((SensorCommand::SetParam(SensorParam::AgcGain, gain),)),
        ensures
            carried_out(self.runner(), SensorCommand::SetParam(SensorParam::AgcGain, gain), r),
    {
        self.send(SensorCommand::SetParam(SensorParam::AgcGain, gain))
    }

    /// Sets the exposure for when the exposure control is off.
    pub fn set_aec_value(&self, gain: i32) -> (r: Result<(), CameraError>)
        requires
            self.runner().requires((SensorCommand::SetParam(SensorParam::AecValue, gain),)),
        ensures
            carried_out(self.runner(), SensorCommand::SetParam(SensorParam::AecValue, gain), r),
    {
        self.send(SensorCommand::SetParam(SensorParam::AecValue, gain))
    }

    /// Chooses a special effect by its number.
    pub fn set_special_effect(&self, effect: i32) -> (r: Result<(), CameraError>)
        requires
            self.runner().requires((SensorCommand::SetParam(SensorParam::SpecialEffect, effect),)),
        ensures
            carried_out(self.runner(), SensorCommand::SetParam(SensorParam::SpecialEffect, effect), r),
    {
        self.send(SensorCommand::SetParam(SensorParam::SpecialEffect, effect))
    }

    /// Chooses the white balance mode by its number.
    pub fn set_wb_mode(&self, mode: i32) -> (r: Result<(), CameraError>)
        requires
            self.runner().requires((SensorCommand::SetParam(SensorParam::WbMode, mode),)),
        ensures
            carried_out(self.runner(), SensorCommand::SetParam(SensorParam::WbMode, mode), r),
    {
        self.send(SensorCommand::SetParam(SensorParam::WbMode, mode))
    }

    /// Sets the level of the automatic exposure.
    pub fn set_ae_level(&self, level: i32) -> (r: Result<(), CameraError>)
        requires
            self.runner().requires((SensorCommand::SetParam(SensorParam::AeLevel, level),)),
        ensures
            carried_out(self.runner(), SensorCommand::SetParam(SensorParam::AeLevel, level), r),
    {
        self.send(SensorCommand::SetParam(SensorParam::AeLevel, level))
    }

    /// Switches the downsizing on or off.
    pub fn set_dcw(&self, enable: bool) -> (r: Result<(), CameraError>)
        requires
            self.runner().requires((SensorCommand::SetParam(SensorParam::Dcw, flag_value(enable)),)),
        ensures
            carried_out(self.runner(), SensorCommand::SetParam(SensorParam::Dcw, flag_value(enable)), r),
    {
        self.send(SensorCommand::SetParam(SensorParam::Dcw, flag(enable)))
    }

    /// Switches the black pixel correction on or off.
    pub fn set_bpc(&self, enable: bool) -> (r: Result<(), CameraError>)
        requires
            self.runner().requires((SensorCommand::SetParam(SensorParam::Bpc, flag_value(enable)),)),
        ensures
            carried_out(self.runner(), SensorCommand::SetParam(SensorParam::Bpc, flag_value(enable)), r),
    {
        self.send(SensorCommand::SetParam(SensorParam::Bpc, flag(enable)))
    }

    /// Switches the white pixel correction on or off.
    pub fn set_wpc(&self, enable: bool) -> (r: Result<(), CameraError>)
        requires
            self.runner().requires((SensorCommand::SetParam(SensorParam::Wpc, flag_value(enable)),)),
        ensures
            carried_out(self.runner(), SensorCommand::SetParam(SensorParam::Wpc, flag_value(enable)), r),
    {
        self.send(SensorCommand::SetParam(SensorParam::Wpc, flag(enable)))
    }

    /// Switches the gamma correction of raw data on or off.
    pub fn set_raw_gma(&self, enable: bool) -> (r: Result<(), CameraError>)
        requires
            self.runner().requires((SensorCommand::SetParam(SensorParam::RawGma, flag_value(enable)),)),
        ensures
            carried_out(self.runner(), SensorCommand::SetParam(SensorParam::RawGma, flag_value(enable)), r),
    {
        self.send(SensorCommand::SetParam(SensorParam::RawGma, flag(enable)))
    }

    /// Switches the lens correction on or off.
    pub fn set_lenc(&self, enable: bool) -> (r: Result<(), CameraError>)
        requires
            self.runner().requires((SensorCommand::SetParam(SensorParam::Lenc, flag_value(enable)),)),
        ensures
            carried_out(self.runner(), SensorCommand::SetParam(SensorParam::Lenc, flag_value(enable)), r),
    {
        self.send(SensorCommand::SetParam(SensorParam::Lenc, flag(enable)))
    }

    /// Reads the masked bits of a register of the sensor; the status says
    /// whether the read succeeded.
    pub fn get_reg(&self, reg: i32, mask: i32) -> (r: Result<(), CameraError>)
        requires
            self.runner().requires(((SensorCommand::GetReg { reg, mask }),)),
        ensures
            carried_out(self.runner(), (SensorCommand::GetReg { reg, mask }), r),
    {
        self.send(SensorCommand::GetReg { reg, mask })
    }

    /// Writes the masked bits of a register of the sensor.
    pub fn set_reg(&self, reg: i32, mask: i32, value: i32) -> (r: Result<(), CameraError>)
        requires
            self.runner().requires(((SensorCommand::SetReg { reg, mask, value }),)),
        ensures
            carried_out(self.runner(), (SensorCommand::SetReg { reg, mask, value }), r),
    {
        self.send(SensorCommand::SetReg { reg, mask, value })
    }

    /// Sets the window of the sensor array that is read out, and how it is
    /// scaled.
    pub fn set_res_raw(
        &self,
        start_x: i32,
        start_y: i32,
        end_x: i32,
        end_y: i32,
        offset_x: i32,
        offset_y: i32,
        total_x: i32,
        total_y: i32,
        output_x: i32,
        output_y: i32,
        scale: bool,
        binning: bool,
    ) -> (r: Result<(), CameraError>)
        requires
            self.runner().requires(
                (
                    SensorCommand::SetResRaw(
                        RawResolution {
                            start_x,
                            start_y,
                            end_x,
                            end_y,
                            offset_x,
                            offset_y,
                            total_x,
                            total_y,
                            output_x,
                            output_y,
                            scale,
                            binning,
                        },
                    ),
                ),
            ),
        ensures
            carried_out(
                self.runner(),
                SensorCommand::SetResRaw(
                    RawResolution {
                        start_x,
                        start_y,
                        end_x,
                        end_y,
                        offset_x,
                        offset_y,
                        total_x,
                        total_y,
                        output_x,
                        output_y,
                        scale,
                        binning,
                    },
                ),
                r,
            ),
    {
        self.send(
            SensorCommand::SetResRaw(
                RawResolution {
                    start_x,
                    start_y,
                    end_x,
                    end_y,
                    offset_x,
                    offset_y,
                    total_x,
                    total_y,
                    output_x,
                    output_y,
                    scale,
                    binning,
                },
            ),
        )
    }

    /// Sets the sensor's clock multiplier.
    pub fn set_pll(
        &self,
        bypass: i32,
        mul: i32,
        sys: i32,
        root: i32,
        pre: i32,
        seld5: i32,
        pclken: i32,
        pclk: i32,
    ) -> (r: Result<(), CameraError>)
        requires
            self.runner().requires(
                (
                    SensorCommand::SetPll(
                        PllSettings { bypass, mul, sys, root, pre, seld5, pclken, pclk },
                    ),
                ),
            ),
        ensures
            carried_out(
                self.runner(),
                SensorCommand::SetPll(
                    PllSettings { bypass, mul, sys, root, pre, seld5, pclken, pclk },
                ),
                r,
            ),
    {
        self.send(
            SensorCommand::SetPll(PllSettings { bypass, mul, sys, root, pre, seld5, pclken, pclk }),
        )
    }

    /// Sets the clock that drives the sensor: the timer that makes it and
    /// its frequency in megahertz.
    pub fn set_xclk(&self, timer: i32, xclk: i32) -> (r: Result<(), CameraError>)
        requires
            self.runner().requires(((SensorCommand::SetXclk { timer, xclk }),)),
        ensures
            carried_out(self.runner(), (SensorCommand::SetXclk { timer, xclk }), r),
    {
        self.send(SensorCommand::SetXclk { timer, xclk })
    }
}

} // verus!
