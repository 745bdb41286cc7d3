//! The events that producers publish for the status panel.

use crate::address::Ipv4Addr;
use vstd::prelude::*;

verus! {

/// The level of a digital input.
#[derive(Clone, Copy, Debug, PartialEq, Eq, Structural)]
pub enum PinState {
    Low,
    High,
}

impl PinState {
    /// `High` for `true`, `Low` for `false`.
    pub fn from_bool(high: bool) -> (level: PinState)
        ensures
            level == (if high {
                PinState::High
            } else {
                PinState::Low
            }),
    {
        if high {
            PinState::High
        } else {
            PinState::Low
        }
    }

    /// Whether the level is `High`.
    pub fn is_high(&self) -> (r: bool)
        ensures
            r == (*self == PinState::High),
    {
        match self {
            PinState::High => true,
            PinState::Low => false,
        }
    }
}

/// One state change, as a producer publishes it.
#[derive(Debug, PartialEq, Eq)]
pub enum InfoUpdate {
    /// The network address changed.
    Addr(Ipv4Addr),
    /// The push button was sampled at this level.
    Button(PinState),
    /// The motion sensor was sampled at this level.
    Motion(PinState),
    /// A line of text for the message row.
    Msg(String),
}

/// An event as specifications see it: text is a sequence of characters.
pub enum InfoUpdateView {
    Addr(Ipv4Addr),
    Button(PinState),
    Motion(PinState),
    Msg(Seq<char>),
}

impl View for InfoUpdate {
    type V = InfoUpdateView;

    open spec fn view(&self) -> InfoUpdateView {
        match self {
            InfoUpdate::Addr(a) => InfoUpdateView::Addr(*a),
            InfoUpdate::Button(l) => InfoUpdateView::Button(*l),
            InfoUpdate::Motion(l) => InfoUpdateView::Motion(*l),
            InfoUpdate::Msg(m) => InfoUpdateView::Msg(m@),
        }
    }
}

impl Clone for InfoUpdate {
    fn clone(&self) -> (copy: InfoUpdate)
        ensures
            copy@ == self@,
    {
        match self {
            InfoUpdate::Addr(a) => InfoUpdate::Addr(*a),
            InfoUpdate::Button(l) => InfoUpdate::Button(*l),
            InfoUpdate::Motion(l) => InfoUpdate::Motion(*l),
            InfoUpdate::Msg(m) => InfoUpdate::Msg(m.clone()),
        }
    }
}

/// A message for the platform's event loop: one byte of payload.
#[derive(Clone, Copy, Debug, PartialEq, Eq, Structural)]
pub struct EventLoopMessage(pub u8);

impl EventLoopMessage {
    /// A message that carries `data`.
    pub fn new(data: u8) -> (message: EventLoopMessage)
        ensures
            message == EventLoopMessage(data),
    {
        EventLoopMessage(data)
    }
}

impl InfoUpdate {
    /// A message event that carries `text`.
    pub fn message(text: &str) -> (event: InfoUpdate)
        ensures
            event@ == InfoUpdateView::Msg(text@),
    {
        InfoUpdate::Msg(text.to_owned())
    }
}

} // verus!
