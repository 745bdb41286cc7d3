//! The display consumer's turn, and what can go wrong on the way to the
//! panel.

use crate::decimal::{push_signed_decimal, signed_decimal};
use crate::event::InfoUpdate;
use crate::status::{apply, StatusInfo};
use vstd::prelude::*;
use vstd::string::StringExecFns;

verus! {

/// A failure reported by the display bus.
#[derive(Clone, Copy, Debug, PartialEq, Eq, Structural)]
pub enum DisplayError {
    /// The selected data format does not fit the interface.
    InvalidFormatError,
    /// The bus could not be written.
    BusWriteError,
    /// The data/command signal could not be switched.
    DCError,
    /// The chip select signal could not be asserted.
    CSError,
    /// The interface does not implement the requested data format.
    DataFormatNotImplemented,
    /// The reset signal could not be switched.
    RSError,
    /// A pixel outside the panel was addressed.
    OutOfBoundsError,
    /// A failure that this list does not know.
    Unrecognized,
}

/// The name of a display failure.
pub open spec fn display_error_name(e: DisplayError) -> Seq<char> {
    match e {
        DisplayError::InvalidFormatError => "InvalidFormatError"@,
        DisplayError::BusWriteError => "BusWriteError"@,
        DisplayError::DCError => "DCError"@,
        DisplayError::CSError => "CSError"@,
        DisplayError::DataFormatNotImplemented => "DataFormatNotImplemented"@,
        DisplayError::RSError => "RSError"@,
        DisplayError::OutOfBoundsError => "OutOfBoundsError"@,
        DisplayError::Unrecognized => "Unrecognized"@,
    }
}

impl DisplayError {
    /// The name of the failure.
    pub fn name(&self) -> (text: &'static str)
        ensures
            text@ == display_error_name(*self),
    {
        match self {
            DisplayError::InvalidFormatError => "InvalidFormatError",
            DisplayError::BusWriteError => "BusWriteError",
            DisplayError::DCError => "DCError",
            DisplayError::CSError => "CSError",
            DisplayError::DataFormatNotImplemented => "DataFormatNotImplemented",
            DisplayError::RSError => "RSError",
            DisplayError::OutOfBoundsError => "OutOfBoundsError",
            DisplayError::Unrecognized => "Unrecognized",
        }
    }
}

/// Why the display task stopped or a drawing call failed.
#[derive(Debug, PartialEq, Eq)]
pub enum SmallDisplayError {
    /// Drawing to the frame buffer failed; the text describes the failure.
    Draw(String),
    /// The display bus reported a failure.
    Display(DisplayError),
    /// The platform reported the error with this code.
    Esp(i32),
    /// Anything else; the text describes it.
    Other(String),
    /// A failure of which nothing is known.
    Unknown,
}

/// An error as specifications see it.
pub enum SmallDisplayErrorView {
    Draw(Seq<char>),
    Display(DisplayError),
    Esp(i32),
    Other(Seq<char>),
    Unknown,
}

impl View for SmallDisplayError {
    type V = SmallDisplayErrorView;

    open spec fn view(&self) -> SmallDisplayErrorView {
        match self {
            SmallDisplayError::Draw(t) => SmallDisplayErrorView::Draw(t@),
            SmallDisplayError::Display(e) => SmallDisplayErrorView::Display(*e),
            SmallDisplayError::Esp(code) => SmallDisplayErrorView::Esp(*code),
            SmallDisplayError::Other(t) => SmallDisplayErrorView::Other(t@),
            SmallDisplayError::Unknown => SmallDisplayErrorView::Unknown,
        }
    }
}

/// The text that describes an error.
pub open spec fn error_text(e: SmallDisplayErrorView) -> Seq<char> {
    match e {
        SmallDisplayErrorView::Draw(t) => "DrawTarget Error: "@ + t,
        SmallDisplayErrorView::Display(d) => display_error_name(d),
        SmallDisplayErrorView::Esp(code) => "error code "@ + signed_decimal(code as int),
        SmallDisplayErrorView::Other(t) => "other: "@ + t,
        SmallDisplayErrorView::Unknown => "unknown error"@,
    }
}

impl SmallDisplayError {
    /// The text that describes the error.
    pub fn to_string(&self) -> (text: String)
        ensures
            text@ == error_text(self@),
    {
        match self {
            SmallDisplayError::Draw(t) => {
                let mut s = String::from_str("DrawTarget Error: ");
                s.append(t.as_str());
                s
            },
            SmallDisplayError::Display(d) => String::from_str(d.name()),
            SmallDisplayError::Esp(code) => {
                let mut s = String::from_str("error code ");
                push_signed_decimal(&mut s, *code as i64);
                s
            },
            SmallDisplayError::Other(t) => {
                let mut s = String::from_str("other: ");
                s.append(t.as_str());
                s
            },
            SmallDisplayError::Unknown => String::from_str("unknown error"),
        }
    }
}

impl From<DisplayError> for SmallDisplayError {
    fn from(value: DisplayError) -> (e: SmallDisplayError)
        ensures
            e@ == SmallDisplayErrorView::Display(value),
    {
        SmallDisplayError::Display(value)
    }
}

impl vstd::std_specs::convert::FromSpecImpl<DisplayError> for SmallDisplayError {
    open spec fn obeys_from_spec() -> bool {
        true
    }

    open spec fn from_spec(value: DisplayError) -> SmallDisplayError {
        SmallDisplayError::Display(value)
    }
}

/// What the receiver reports once every sender is gone and nothing is left
/// to read.
pub open spec fn closed_text() -> Seq<char> {
    "receiving on an empty and disconnected channel"@
}

/// One turn of the display consumer, given what the channel handed over.
///
/// An event is applied to the record, which is then to be drawn afresh.
/// `None` means the channel is closed: the record stays as it is and the
/// consumer has to stop with an error.
pub fn display_runner(status: &mut StatusInfo, received: Option<InfoUpdate>) -> (r: Result<
    (),
    SmallDisplayError,
>)
    ensures
        match received {
            Some(e) => final(status)@ == apply(old(status)@, e@) && r is Ok,
            None => {
                &&& final(status)@ == old(status)@
                &&& r matches Err(err)
                &&& err@ == SmallDisplayErrorView::Other(closed_text())
            },
        },
{
    match received {
        Some(info_update) => {
            status.update(&info_update);
            Ok(())
        },
        None => Err(
            SmallDisplayError::Other(
                String::from_str("receiving on an empty and disconnected channel"),
            ),
        ),
    }
}

} // verus!
