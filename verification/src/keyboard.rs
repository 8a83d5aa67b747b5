//! The device: how the keyboard is told from other HID devices, how it is
//! described to the user, and what one call of the session puts on the wire.
//!
//! Opening the device and writing to it are left to the caller. This module
//! decides what is written and how long the firmware is given afterwards.

use crate::command::{Command, CommandView};
use vstd::prelude::*;
use vstd::string::StringExecFns;

verus! {

/// USB vendor id of the keyboard.
pub const VENDOR_ID: u16 = 0x046d;

/// USB product id of the keyboard.
pub const PRODUCT_ID: u16 = 0xc338;

/// Pause owed after every write, in milliseconds. Reports written back to
/// back are dropped by the firmware.
pub const SETTLE_MILLIS: u64 = 10;

/// What enumeration tells of one HID device.
#[derive(Debug, Clone, PartialEq, Eq)]
pub struct Descriptor {
    pub vendor_id: u16,
    pub product_id: u16,
    pub manufacturer: Option<String>,
    pub product: Option<String>,
}

/// One write to the device: the report, and the pause owed once it is out.
#[derive(Debug, Clone, PartialEq, Eq)]
pub struct Exchange {
    pub report: Vec<u8>,
    pub settle_millis: u64,
}

/// The name to show for a string that the device may not have.
pub open spec fn name_or(name: Option<String>, fallback: Seq<char>) -> Seq<char> {
    match name {
        Some(text) => text@,
        None => fallback,
    }
}

impl Descriptor {
    /// Whether the ids are those of the keyboard.
    pub open spec fn spec_is_keyboard(self) -> bool {
        self.vendor_id == VENDOR_ID && self.product_id == PRODUCT_ID
    }

    /// The line that names the device: manufacturer, colon, product.
    pub open spec fn spec_description(self) -> Seq<char> {
        name_or(self.manufacturer, "Unknown Manufacturer"@) + ": "@ + name_or(
            self.product,
            "Unknown Product"@,
        )
    }

    /// Whether the ids are those of the keyboard.
    pub fn is_keyboard(&self) -> (b: bool)
        ensures
            b == self.spec_is_keyboard(),
    {
        self.vendor_id == VENDOR_ID && self.product_id == PRODUCT_ID
    }

    /// The line that names the device to the user.
    pub fn description(&self) -> (text: String)
        ensures
            text@ == self.spec_description(),
    {
        let manufacturer: &str = match &self.manufacturer {
            Some(name) => name.as_str(),
            None => "Unknown Manufacturer",
        };
        let product: &str = match &self.product {
            Some(name) => name.as_str(),
            None => "Unknown Product",
        };
        let mut text = String::from_str(manufacturer);
        text.append(": ");
        text.append(product);
        text
    }
}

/// The position of the first keyboard among `devices`, if there is one.
pub fn locate(devices: &Vec<Descriptor>) -> (found: Option<usize>)
    ensures
        match found {
            Some(at) => {
                &&& at < devices.len()
                &&& devices[at as int].spec_is_keyboard()
                &&& forall|i: int| 0 <= i < at ==> !(#[trigger] devices[i]).spec_is_keyboard()
            },
            None => forall|i: int|
                0 <= i < devices.len() ==> !(#[trigger] devices[i]).spec_is_keyboard(),
        },
{
    let mut i: usize = 0;
    while i < devices.len()
        invariant
            i <= devices.len(),
            forall|j: int| 0 <= j < i ==> !(#[trigger] devices[j]).spec_is_keyboard(),
        decreases devices.len() - i,
    {
        if devices[i].is_keyboard() {
            return Some(i);
        }
        i = i + 1;
    }
    None
}

/// What executing `command` puts on the wire: its report, followed by the
/// settling pause.
pub fn exec(command: &Command) -> (exchange: Exchange)
    requires
        command@.wf(),
    ensures
        exchange.report@ == command@.report(),
        exchange.settle_millis == SETTLE_MILLIS,
{
    Exchange { report: command.bytes(), settle_millis: SETTLE_MILLIS }
}

/// What committing puts on the wire. It is the same whatever was sent before.
pub fn commit() -> (exchange: Exchange)
    ensures
        exchange.report@ == CommandView::Commit.report(),
        exchange.report@ == seq![
            0x11u8, 0xff, 0x0c, 0x5a, 0, 0, 0, 0, 0, 0, 0, 0, 0, 0, 0, 0, 0, 0, 0, 0,
        ],
        exchange.settle_millis == SETTLE_MILLIS,
{
    exec(&Command::Commit)
}

} // verus!
