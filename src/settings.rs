//! Settings of the serial link and of the kernel image, built with a builder.

use serialport::{DataBits, FlowControl, Parity, StopBits};
use vstd::prelude::*;

verus! {

/// Relies on `serialport::DataBits`: a public enum of four variants without
/// fields (`Five`, `Six`, `Seven`, `Eight`), which Verus reads as declared.
#[verifier::external_type_specification]
pub struct ExDataBits(serialport::DataBits);

/// Relies on `serialport::FlowControl`: a public enum of three variants
/// without fields (`None`, `Software`, `Hardware`), which Verus reads as
/// declared.
#[verifier::external_type_specification]
pub struct ExFlowControl(serialport::FlowControl);

/// Relies on `serialport::Parity`: a public enum of three variants without
/// fields (`None`, `Odd`, `Even`), which Verus reads as declared.
#[verifier::external_type_specification]
pub struct ExParity(serialport::Parity);

/// Relies on `serialport::StopBits`: a public enum of two variants without
/// fields (`One`, `Two`), which Verus reads as declared.
#[verifier::external_type_specification]
pub struct ExStopBits(serialport::StopBits);

/// The kernel image pushed when the settings name none.
pub const DEFAULT_KERNEL_IMAGE: &'static str = "kernel8.img";

/// The baud rate that a session uses unless told otherwise.
pub const DEFAULT_BAUD_RATE: u32 = 230_400;

/// All settings of a boot session: the serial port and its line parameters,
/// and the kernel image to push.
#[derive(Debug, PartialEq, Eq)]
pub struct Settings {
    /// The port name, usually the device path; `None` asks for an interactive
    /// selection.
    pub path: Option<String>,
    /// The baud rate in symbols per second.
    pub baud_rate: u32,
    /// Number of bits used to represent a character sent on the line.
    pub data_bits: DataBits,
    /// The type of signalling used to control the data transfer.
    pub flow_control: FlowControl,
    /// The type of parity used for error checking.
    pub parity: Parity,
    /// Number of bits that signal the end of a character.
    pub stop_bits: StopBits,
    /// Path to the kernel image; `None` stands for the default file name.
    pub kernel_image: Option<String>,
}

/// What a `Settings` value holds, with the strings seen as their characters.
pub struct SettingsView {
    pub path: Option<Seq<char>>,
    pub baud_rate: u32,
    pub data_bits: DataBits,
    pub flow_control: FlowControl,
    pub parity: Parity,
    pub stop_bits: StopBits,
    pub kernel_image: Option<Seq<char>>,
}

/// The characters of an optional string.
pub open spec fn opt_view(s: Option<String>) -> Option<Seq<char>> {
    match s {
        Some(t) => Some(t@),
        None => None,
    }
}

impl View for Settings {
    type V = SettingsView;

    open spec fn view(&self) -> SettingsView {
        SettingsView {
            path: opt_view(self.path),
            baud_rate: self.baud_rate,
            data_bits: self.data_bits,
            flow_control: self.flow_control,
            parity: self.parity,
            stop_bits: self.stop_bits,
            kernel_image: opt_view(self.kernel_image),
        }
    }
}

impl SettingsView {
    /// The settings that a builder starts from: no port, 230400 baud, eight
    /// data bits, no flow control, no parity, one stop bit, no image path.
    pub open spec fn defaults() -> SettingsView {
        SettingsView {
            path: None,
            baud_rate: DEFAULT_BAUD_RATE,
            data_bits: DataBits::Eight,
            flow_control: FlowControl::None,
            parity: Parity::None,
            stop_bits: StopBits::One,
            kernel_image: None,
        }
    }

    pub open spec fn with_path(self, path: Seq<char>) -> SettingsView {
        SettingsView { path: Some(path), ..self }
    }

    pub open spec fn with_baud_rate(self, baud_rate: u32) -> SettingsView {
        SettingsView { baud_rate, ..self }
    }

    pub open spec fn with_data_bits(self, data_bits: DataBits) -> SettingsView {
        SettingsView { data_bits, ..self }
    }

    pub open spec fn with_flow_control(self, flow_control: FlowControl) -> SettingsView {
        SettingsView { flow_control, ..self }
    }

    pub open spec fn with_parity(self, parity: Parity) -> SettingsView {
        SettingsView { parity, ..self }
    }

    pub open spec fn with_stop_bits(self, stop_bits: StopBits) -> SettingsView {
        SettingsView { stop_bits, ..self }
    }

    pub open spec fn with_kernel_image(self, kernel_image: Seq<char>) -> SettingsView {
        SettingsView { kernel_image: Some(kernel_image), ..self }
    }
}

fn copy_opt_string(s: &Option<String>) -> (r: Option<String>)
    ensures
        r == *s,
{
    match s {
        Some(t) => Some(t.clone()),
        None => None,
    }
}

impl Clone for Settings {
    fn clone(&self) -> (r: Settings)
        ensures
            r == *self,
    {
        Settings {
            path: copy_opt_string(&self.path),
            baud_rate: self.baud_rate,
            data_bits: self.data_bits,
            flow_control: self.flow_control,
            parity: self.parity,
            stop_bits: self.stop_bits,
            kernel_image: copy_opt_string(&self.kernel_image),
        }
    }
}

impl Settings {
    /// The path of the kernel image to push: the one set, else `kernel8.img`
    /// in the current directory.
    pub fn kernel_image_path(&self) -> (p: String)
        ensures
            p@ == match self.kernel_image {
                Some(k) => k@,
                None => DEFAULT_KERNEL_IMAGE@,
            },
    {
        match &self.kernel_image {
            Some(k) => k.clone(),
            None => DEFAULT_KERNEL_IMAGE.to_owned(),
        }
    }
}

/// Builds `Settings`: every value has a default and can be set on its own.
pub struct SettingsBuilder {
    settings: Settings,
}

impl View for SettingsBuilder {
    type V = SettingsView;

    closed spec fn view(&self) -> SettingsView {
        self.settings@
    }
}

impl SettingsBuilder {
    /// Starts from the default values and no port path.
    pub fn new() -> (b: SettingsBuilder)
        ensures
            b@ == SettingsView::defaults(),
    {
        SettingsBuilder {
            settings: Settings {
                path: None,
                baud_rate: DEFAULT_BAUD_RATE,
                data_bits: DataBits::Eight,
                flow_control: FlowControl::None,
                parity: Parity::None,
                stop_bits: StopBits::One,
                kernel_image: None,
            },
        }
    }

    /// Sets the path of the serial port.
    pub fn path(self, path: &str) -> (b: SettingsBuilder)
        ensures
            b@ == self@.with_path(path@),
    {
        let mut b = self;
        b.settings.path = Some(path.to_owned());
        b
    }

    /// Sets the baud rate in symbols per second.
    pub fn baud_rate(self, baud_rate: u32) -> (b: SettingsBuilder)
        ensures
            b@ == self@.with_baud_rate(baud_rate),
    {
        let mut b = self;
        b.settings.baud_rate = baud_rate;
        b
    }

    /// Sets the number of bits used to represent a character on the line.
    pub fn data_bits(self, data_bits: DataBits) -> (b: SettingsBuilder)
        ensures
            b@ == self@.with_data_bits(data_bits),
    {
        let mut b = self;
        b.settings.data_bits = data_bits;
        b
    }

    /// Sets the type of signalling used to control the data transfer.
    pub fn flow_control(self, flow_control: FlowControl) -> (b: SettingsBuilder)
        ensures
            b@ == self@.with_flow_control(flow_control),
    {
        let mut b = self;
        b.settings.flow_control = flow_control;
        b
    }

    /// Sets the type of parity used for error checking.
    pub fn parity(self, parity: Parity) -> (b: SettingsBuilder)
        ensures
            b@ == self@.with_parity(parity),
    {
        let mut b = self;
        b.settings.parity = parity;
        b
    }

    /// Sets the number of bits that signal the end of a character.
    pub fn stop_bits(self, stop_bits: StopBits) -> (b: SettingsBuilder)
        ensures
            b@ == self@.with_stop_bits(stop_bits),
    {
        let mut b = self;
        b.settings.stop_bits = stop_bits;
        b
    }

    /// Sets the path of the kernel image to push.
    pub fn kernel_image(self, kernel_image: &str) -> (b: SettingsBuilder)
        ensures
            b@ == self@.with_kernel_image(kernel_image@),
    {
        let mut b = self;
        b.settings.kernel_image = Some(kernel_image.to_owned());
        b
    }

    /// The settings built so far.
    pub fn finalize(self) -> (s: Settings)
        ensures
            s@ == self@,
    {
        self.settings
    }
}

impl Default for SettingsBuilder {
    fn default() -> (b: SettingsBuilder)
        ensures
            b@ == SettingsView::defaults(),
    {
        SettingsBuilder::new()
    }
}

/// Setting every field, in any order, reads back exactly the values that
/// were given: the setters touch only their own field and have no other
/// effect.
pub proof fn lemma_builder_round_trip(
    start: SettingsView,
    path: Seq<char>,
    baud_rate: u32,
    data_bits: DataBits,
    flow_control: FlowControl,
    parity: Parity,
    stop_bits: StopBits,
    kernel_image: Seq<char>,
)
    ensures
        ({
            let v = start.with_path(path).with_baud_rate(baud_rate).with_data_bits(
                data_bits,
            ).with_flow_control(flow_control).with_parity(parity).with_stop_bits(
                stop_bits,
            ).with_kernel_image(kernel_image);
            &&& v.path == Some(path)
            &&& v.baud_rate == baud_rate
            &&& v.data_bits == data_bits
            &&& v.flow_control == flow_control
            &&& v.parity == parity
            &&& v.stop_bits == stop_bits
            &&& v.kernel_image == Some(kernel_image)
            &&& v == start.with_kernel_image(kernel_image).with_stop_bits(stop_bits).with_parity(
                parity,
            ).with_flow_control(flow_control).with_data_bits(data_bits).with_baud_rate(
                baud_rate,
            ).with_path(path)
        }),
{
}

} // verus!
