//! The identification strings of a device.

use crate::error::SmartError;
use crate::text::{decode_text, is_text, text_of};
use vstd::prelude::*;

verus! {

/// What a device says of itself. Each field comes from a text buffer of fixed
/// capacity that the native layer fills.
#[derive(Debug)]
pub struct IdentifyParsedData {
    /// The serial number.
    pub serial: String,
    /// The firmware revision.
    pub firmware: String,
    /// The model.
    pub model: String,
}

/// The identification strings as sequences of characters.
pub struct IdentifyText {
    pub serial: Seq<char>,
    pub firmware: Seq<char>,
    pub model: Seq<char>,
}

impl View for IdentifyParsedData {
    type V = IdentifyText;

    open spec fn view(&self) -> IdentifyText {
        IdentifyText { serial: self.serial@, firmware: self.firmware@, model: self.model@ }
    }
}

/// Whether every one of the three native buffers holds valid text.
pub open spec fn identify_is_text(serial: Seq<u8>, firmware: Seq<u8>, model: Seq<u8>) -> bool {
    is_text(serial) && is_text(firmware) && is_text(model)
}

/// The identification strings that three native buffers hold.
pub open spec fn identify_text(serial: Seq<u8>, firmware: Seq<u8>, model: Seq<u8>) -> IdentifyText
    recommends
        identify_is_text(serial, firmware, model),
{
    IdentifyText { serial: text_of(serial), firmware: text_of(firmware), model: text_of(model) }
}

impl IdentifyParsedData {
    /// Decodes the three text buffers of the native identify data. Fails with
    /// `SmartError::Decode` exactly when one of them is not valid text.
    pub fn decode(serial: &[u8], firmware: &[u8], model: &[u8]) -> (r: Result<
        IdentifyParsedData,
        SmartError,
    >)
        ensures
            match r {
                Ok(data) => identify_is_text(serial@, firmware@, model@) && data@ == identify_text(
                    serial@,
                    firmware@,
                    model@,
                ),
                Err(e) => !identify_is_text(serial@, firmware@, model@) && e == SmartError::Decode,
            },
    {
        let model = match decode_text(model) {
            Ok(text) => text,
            Err(e) => {
                return Err(e);
            },
        };
        let firmware = match decode_text(firmware) {
            Ok(text) => text,
            Err(e) => {
                return Err(e);
            },
        };
        let serial = match decode_text(serial) {
            Ok(text) => text,
            Err(e) => {
                return Err(e);
            },
        };
        Ok(IdentifyParsedData { serial, firmware, model })
    }
}

} // verus!
