//! What the status panel shows: labelled texts, the row of the two inputs,
//! and the window that holds the address row above it.
//!
//! These are the texts only. Where on the panel they stand is for whoever
//! draws them to arrange.

use crate::status::{gpio_text, StatusInfo, StatusInfoGpio};
use vstd::prelude::*;

verus! {

/// The label before the address.
pub open spec fn ip_label_text() -> Seq<char> {
    "IP:"@
}

/// The label before the button level.
pub open spec fn button_label_text() -> Seq<char> {
    "Btn:"@
}

/// The label before the motion level.
pub open spec fn motion_label_text() -> Seq<char> {
    "Motion:"@
}

/// The address text that a window shows before it knows an address: the
/// longest one there is, so that the row is laid out at its full width.
pub open spec fn longest_address_text() -> Seq<char> {
    "255.255.255.255"@
}

/// The label before the address.
pub fn ip_label() -> (text: &'static str)
    ensures
        text@ == ip_label_text(),
{
    "IP:"
}

/// The label before the button level.
pub fn button_label() -> (text: &'static str)
    ensures
        text@ == button_label_text(),
{
    "Btn:"
}

/// The label before the motion level.
pub fn motion_label() -> (text: &'static str)
    ensures
        text@ == motion_label_text(),
{
    "Motion:"
}

/// The address text that a window shows before it knows an address.
pub fn longest_address() -> (text: &'static str)
    ensures
        text@ == longest_address_text(),
{
    "255.255.255.255"
}

/// The panel text for an input level: `"High"`, `"Low"` or `"None"`.
pub fn gpio_status_as_str(gpio_stat: &StatusInfoGpio) -> (text: &'static str)
    ensures
        text@ == gpio_text(*gpio_stat),
{
    StatusInfo::gpio_status_as_str(gpio_stat)
}

/// A text with a label before it.
#[derive(Clone, Copy, Debug, PartialEq, Eq)]
pub struct LabeledText<'label> {
    label: &'label str,
    text: &'label str,
}

/// A labelled text as specifications see it.
pub struct LabeledTextView {
    pub label: Seq<char>,
    pub text: Seq<char>,
}

impl<'label> View for LabeledText<'label> {
    type V = LabeledTextView;

    closed spec fn view(&self) -> LabeledTextView {
        LabeledTextView { label: self.label@, text: self.text@ }
    }
}

/// Builds a labelled text: first the label, then the text.
#[derive(Clone, Copy, Debug, PartialEq, Eq)]
pub struct LabeledTextBuilder<'label> {
    label: &'label str,
    text: &'label str,
}

impl<'label> View for LabeledTextBuilder<'label> {
    type V = LabeledTextView;

    closed spec fn view(&self) -> LabeledTextView {
        LabeledTextView { label: self.label@, text: self.text@ }
    }
}

impl<'label> LabeledTextBuilder<'label> {
    /// A builder with the label `lbl` and no text yet.
    pub fn new(lbl: &'label str) -> (builder: LabeledTextBuilder<'label>)
        ensures
            builder@ == (LabeledTextView { label: lbl@, text: Seq::empty() }),
    {
        proof {
            reveal_strlit("");
        }
        let builder = LabeledTextBuilder { label: lbl, text: "" };
        assert(builder@.text =~= Seq::<char>::empty());
        builder
    }

    /// The builder with `txt` as its text.
    pub fn with_text(self, txt: &'label str) -> (builder: LabeledTextBuilder<'label>)
        ensures
            builder@ == (LabeledTextView { label: self@.label, text: txt@ }),
    {
        LabeledTextBuilder { label: self.label, text: txt }
    }

    /// The labelled text that was built.
    pub fn build(self) -> (built: LabeledText<'label>)
        ensures
            built@ == self@,
    {
        LabeledText::new(self.label, self.text)
    }
}

impl<'label> LabeledText<'label> {
    /// The text `text` with the label `label` before it.
    pub fn new(label: &'label str, text: &'label str) -> (labeled: LabeledText<'label>)
        ensures
            labeled@ == (LabeledTextView { label: label@, text: text@ }),
    {
        LabeledText { label, text }
    }

    /// The label.
    pub fn label(&self) -> (label: &'label str)
        ensures
            label@ == self@.label,
    {
        self.label
    }

    /// The text.
    pub fn text(&self) -> (text: &'label str)
        ensures
            text@ == self@.text,
    {
        self.text
    }

    /// Replaces the text and keeps the label.
    pub fn set_text(&mut self, text: &'label str)
        ensures
            final(self)@ == (LabeledTextView { label: old(self)@.label, text: text@ }),
    {
        self.text = text;
    }

    /// The same label with `text` after it.
    pub fn with_text(&self, text: &'label str) -> (labeled: LabeledText<'label>)
        ensures
            labeled@ == (LabeledTextView { label: self@.label, text: text@ }),
    {
        LabeledText { label: self.label, text }
    }
}

/// The row of the two inputs: the button and the motion sensor.
#[derive(Clone, Copy, Debug, PartialEq, Eq)]
pub struct InputStatsRow<'label> {
    button: LabeledText<'label>,
    motion: LabeledText<'label>,
}

/// The row of the inputs as specifications see it.
pub struct InputStatsRowView {
    pub button: LabeledTextView,
    pub motion: LabeledTextView,
}

impl<'label> View for InputStatsRow<'label> {
    type V = InputStatsRowView;

    closed spec fn view(&self) -> InputStatsRowView {
        InputStatsRowView { button: self.button@, motion: self.motion@ }
    }
}

/// The row that shows the two levels.
pub open spec fn input_row(button: StatusInfoGpio, motion: StatusInfoGpio) -> InputStatsRowView {
    InputStatsRowView {
        button: LabeledTextView { label: button_label_text(), text: gpio_text(button) },
        motion: LabeledTextView { label: motion_label_text(), text: gpio_text(motion) },
    }
}

impl<'label> Default for InputStatsRow<'label> {
    fn default() -> (row: InputStatsRow<'label>)
        ensures
            row@ == input_row(None, None),
    {
        InputStatsRow::new(&None, &None)
    }
}

impl<'label> InputStatsRow<'label> {
    /// The row that shows the two levels.
    pub fn new(button: &StatusInfoGpio, motion: &StatusInfoGpio) -> (row: InputStatsRow<'label>)
        ensures
            row@ == input_row(*button, *motion),
    {
        let button = LabeledTextBuilder::new(button_label()).with_text(gpio_status_as_str(button)).build();
        let motion = LabeledTextBuilder::new(motion_label()).with_text(
            gpio_status_as_str(motion),
        ).build();
        InputStatsRow { button, motion }
    }

    /// The part of the row that shows the button.
    pub fn button(&self) -> (part: LabeledText<'label>)
        ensures
            part@ == self@.button,
    {
        self.button
    }

    /// The part of the row that shows the motion sensor.
    pub fn motion(&self) -> (part: LabeledText<'label>)
        ensures
            part@ == self@.motion,
    {
        self.motion
    }

    /// The row with the button at the level `button`.
    pub fn update_button(&self, button: &StatusInfoGpio) -> (row: InputStatsRow<'label>)
        ensures
            row@ == (InputStatsRowView {
                button: LabeledTextView { label: self@.button.label, text: gpio_text(*button) },
                motion: self@.motion,
            }),
    {
        InputStatsRow {
            button: self.button.with_text(gpio_status_as_str(button)),
            motion: self.motion,
        }
    }

    /// The row with the motion sensor at the level `motion`.
    pub fn update_motion(&self, motion: &StatusInfoGpio) -> (row: InputStatsRow<'label>)
        ensures
            row@ == (InputStatsRowView {
                button: self@.button,
                motion: LabeledTextView { label: self@.motion.label, text: gpio_text(*motion) },
            }),
    {
        InputStatsRow {
            button: self.button,
            motion: self.motion.with_text(gpio_status_as_str(motion)),
        }
    }
}

/// The whole panel: the address row above the row of the inputs.
#[derive(Clone, Copy, Debug, PartialEq, Eq)]
pub struct StatusWindow<'txt> {
    ip: LabeledText<'txt>,
    inputs: InputStatsRow<'txt>,
}

/// The panel as specifications see it.
pub struct StatusWindowView {
    pub ip: LabeledTextView,
    pub inputs: InputStatsRowView,
}

impl<'txt> View for StatusWindow<'txt> {
    type V = StatusWindowView;

    closed spec fn view(&self) -> StatusWindowView {
        StatusWindowView { ip: self.ip@, inputs: self.inputs@ }
    }
}

/// The panel that shows the address text and the two levels.
pub open spec fn window_of(
    address: Seq<char>,
    button: StatusInfoGpio,
    motion: StatusInfoGpio,
) -> StatusWindowView {
    StatusWindowView {
        ip: LabeledTextView { label: ip_label_text(), text: address },
        inputs: input_row(button, motion),
    }
}

impl<'txt> Default for StatusWindow<'txt> {
    fn default() -> (window: StatusWindow<'txt>)
        ensures
            window@ == window_of(longest_address_text(), None, None),
    {
        StatusWindow::new(longest_address(), &None, &None)
    }
}

impl<'txt> StatusWindow<'txt> {
    /// The panel that shows the address text and the two levels.
    pub fn new(address: &'txt str, button: &StatusInfoGpio, motion: &StatusInfoGpio) -> (window:
        StatusWindow<'txt>)
        ensures
            window@ == window_of(address@, *button, *motion),
    {
        let ip = LabeledTextBuilder::new(ip_label()).with_text(address).build();
        let inputs = InputStatsRow::new(button, motion);
        StatusWindow { ip, inputs }
    }

    /// The panel that shows a status record.
    pub fn from(status_info: &'txt StatusInfo) -> (window: StatusWindow<'txt>)
        ensures
            window@ == window_of(
                status_info@.ip_text,
                status_info@.button_state,
                status_info@.motion_state,
            ),
    {
        let button = status_info.button_state();
        let motion = status_info.motion_state();
        StatusWindow::new(status_info.address_as_str(), &button, &motion)
    }

    /// The address row.
    pub fn ip(&self) -> (row: LabeledText<'txt>)
        ensures
            row@ == self@.ip,
    {
        self.ip
    }

    /// The row of the inputs.
    pub fn inputs(&self) -> (row: InputStatsRow<'txt>)
        ensures
            row@ == self@.inputs,
    {
        self.inputs
    }

    /// Replaces the address text.
    pub fn set_ip_text(&mut self, text: &'txt str)
        ensures
            final(self)@ == (StatusWindowView {
                ip: LabeledTextView { label: old(self)@.ip.label, text: text@ },
                ..old(self)@
            }),
    {
        self.ip = self.ip.with_text(text);
    }

    /// Replaces the level of the button.
    pub fn set_button_text(&mut self, button: &StatusInfoGpio)
        ensures
            final(self)@ == (StatusWindowView {
                inputs: InputStatsRowView {
                    button: LabeledTextView {
                        label: old(self)@.inputs.button.label,
                        text: gpio_text(*button),
                    },
                    motion: old(self)@.inputs.motion,
                },
                ..old(self)@
            }),
    {
        self.inputs = self.inputs.update_button(button);
    }

    /// Replaces the level of the motion sensor.
    pub fn set_motion_text(&mut self, motion: &StatusInfoGpio)
        ensures
            final(self)@ == (StatusWindowView {
                inputs: InputStatsRowView {
                    button: old(self)@.inputs.button,
                    motion: LabeledTextView {
                        label: old(self)@.inputs.motion.label,
                        text: gpio_text(*motion),
                    },
                },
                ..old(self)@
            }),
    {
        self.inputs = self.inputs.update_motion(motion);
    }
}

} // verus!
