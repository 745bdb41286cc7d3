//! The status record that the display consumer owns, and how events change it.

use crate::address::{dotted, Ipv4Addr};
use crate::event::{InfoUpdate, InfoUpdateView, PinState};
use vstd::prelude::*;

verus! {

/// The last sampled level of an input, or `None` before the first sample.
pub type StatusInfoGpio = Option<PinState>;

/// What the status panel shows: the last address, the last level of each
/// input and the last message line.
#[derive(Debug, PartialEq, Eq)]
pub struct StatusInfo {
    address: Ipv4Addr,
    button_state: StatusInfoGpio,
    motion_state: StatusInfoGpio,
    ip_string: String,
    message: String,
}

/// A status record as specifications see it.
pub struct StatusInfoView {
    pub address: Ipv4Addr,
    pub button_state: StatusInfoGpio,
    pub motion_state: StatusInfoGpio,
    pub ip_text: Seq<char>,
    pub message: Seq<char>,
}

impl View for StatusInfo {
    type V = StatusInfoView;

    closed spec fn view(&self) -> StatusInfoView {
        StatusInfoView {
            address: self.address,
            button_state: self.button_state,
            motion_state: self.motion_state,
            ip_text: self.ip_string@,
            message: self.message@,
        }
    }
}

/// The record before any event: no address, no samples, no message.
pub open spec fn neutral() -> StatusInfoView {
    StatusInfoView {
        address: Ipv4Addr::spec_unspecified(),
        button_state: None,
        motion_state: None,
        ip_text: Seq::empty(),
        message: Seq::empty(),
    }
}

/// The address row is blank while no address was ever set, and otherwise is
/// the dotted-decimal text of the address.
pub open spec fn consistent(s: StatusInfoView) -> bool {
    ||| s.ip_text == dotted(s.address)
    ||| (s.address == Ipv4Addr::spec_unspecified() && s.ip_text == Seq::<char>::empty())
}

/// The record after one event: each kind of event replaces exactly one field.
pub open spec fn apply(s: StatusInfoView, e: InfoUpdateView) -> StatusInfoView {
    match e {
        InfoUpdateView::Addr(a) => StatusInfoView { address: a, ip_text: dotted(a), ..s },
        InfoUpdateView::Button(l) => StatusInfoView { button_state: Some(l), ..s },
        InfoUpdateView::Motion(l) => StatusInfoView { motion_state: Some(l), ..s },
        InfoUpdateView::Msg(m) => StatusInfoView { message: m, ..s },
    }
}

/// The record after a sequence of events, applied first to last.
pub open spec fn apply_all(s: StatusInfoView, events: Seq<InfoUpdateView>) -> StatusInfoView
    decreases events.len(),
{
    if events.len() == 0 {
        s
    } else {
        apply(apply_all(s, events.drop_last()), events.last())
    }
}

/// The text that the panel shows for an input level.
pub open spec fn gpio_text(gpio_stat: StatusInfoGpio) -> Seq<char> {
    match gpio_stat {
        Some(PinState::High) => "High"@,
        Some(PinState::Low) => "Low"@,
        None => "None"@,
    }
}

impl Clone for StatusInfo {
    fn clone(&self) -> (copy: StatusInfo)
        ensures
            copy@ == self@,
    {
        StatusInfo {
            address: self.address,
            button_state: self.button_state,
            motion_state: self.motion_state,
            ip_string: self.ip_string.clone(),
            message: self.message.clone(),
        }
    }
}

impl Default for StatusInfo {
    fn default() -> (s: StatusInfo)
        ensures
            s@ == neutral(),
    {
        StatusInfo {
            address: Ipv4Addr::unspecified(),
            button_state: None,
            motion_state: None,
            ip_string: String::new(),
            message: String::new(),
        }
    }
}

impl StatusInfo {
    /// A record with the given address and levels and no message.
    pub fn new(address: Ipv4Addr, button_state: StatusInfoGpio, motion_state: StatusInfoGpio) -> (s:
        StatusInfo)
        ensures
            s@ == (StatusInfoView {
                address,
                button_state,
                motion_state,
                ip_text: dotted(address),
                message: Seq::empty(),
            }),
            consistent(s@),
    {
        StatusInfo {
            address,
            button_state,
            motion_state,
            ip_string: address.to_string(),
            message: String::new(),
        }
    }

    /// Applies one event to the record.
    pub fn update(&mut self, info_update: &InfoUpdate)
        ensures
            final(self)@ == apply(old(self)@, info_update@),
            consistent(old(self)@) ==> consistent(final(self)@),
    {
        match info_update {
            InfoUpdate::Addr(address) => {
                self.set_address(*address);
            },
            InfoUpdate::Button(l) => {
                self.button_state = Some(*l);
            },
            InfoUpdate::Motion(l) => {
                self.motion_state = Some(*l);
            },
            InfoUpdate::Msg(m) => {
                self.message = m.clone();
            },
        }
    }

    /// The panel text for an input level: `"High"`, `"Low"` or `"None"`.
    pub fn gpio_status_as_str(gpio_stat: &StatusInfoGpio) -> (text: &'static str)
        ensures
            text@ == gpio_text(*gpio_stat),
    {
        match gpio_stat {
            Some(PinState::High) => "High",
            Some(PinState::Low) => "Low",
            None => "None",
        }
    }

    /// The panel text for the button.
    pub fn button_state_as_str(&self) -> (text: &'static str)
        ensures
            text@ == gpio_text(self@.button_state),
    {
        Self::gpio_status_as_str(&self.button_state)
    }

    /// The panel text for the motion sensor.
    pub fn motion_state_as_str(&self) -> (text: &'static str)
        ensures
            text@ == gpio_text(self@.motion_state),
    {
        Self::gpio_status_as_str(&self.motion_state)
    }

    /// The text of the address row.
    pub fn address_as_str(&self) -> (text: &str)
        ensures
            text@ == self@.ip_text,
    {
        self.ip_string.as_str()
    }

    /// The text of the message row.
    pub fn message_as_str(&self) -> (text: &str)
        ensures
            text@ == self@.message,
    {
        self.message.as_str()
    }

    /// The last address.
    pub fn address(&self) -> (a: Ipv4Addr)
        ensures
            a == self@.address,
    {
        self.address
    }

    /// The last button level.
    pub fn button_state(&self) -> (l: StatusInfoGpio)
        ensures
            l == self@.button_state,
    {
        self.button_state
    }

    /// The last motion level.
    pub fn motion_state(&self) -> (l: StatusInfoGpio)
        ensures
            l == self@.motion_state,
    {
        self.motion_state
    }

    /// Replaces the address and its text.
    pub fn set_address(&mut self, address: Ipv4Addr)
        ensures
            final(self)@ == (StatusInfoView {
                address,
                ip_text: dotted(address),
                ..old(self)@
            }),
            consistent(final(self)@),
    {
        self.address = address;
        self.ip_string = address.to_string();
    }

    /// Replaces the button level.
    pub fn set_button_state(&mut self, button_state: StatusInfoGpio)
        ensures
            final(self)@ == (StatusInfoView { button_state, ..old(self)@ }),
    {
        self.button_state = button_state;
    }

    /// Replaces the motion level.
    pub fn set_motion_state(&mut self, motion_state: StatusInfoGpio)
        ensures
            final(self)@ == (StatusInfoView { motion_state, ..old(self)@ }),
    {
        self.motion_state = motion_state;
    }
}

} // verus!
