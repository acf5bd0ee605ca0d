//! Decoder for USB HID report descriptors.
//!
//! [`hid::descriptor`] turns the raw bytes of a report descriptor into a
//! sequence of typed items, [`hid::name`] maps usage pages and usages to
//! the names of the HID usage tables, and [`transport`] holds what is
//! decided when the descriptor is fetched from a device.

use vstd::prelude::*;

pub mod hid;
pub mod transport;

verus! {

/// A failure to fetch a descriptor from a device, with its message.
#[derive(Debug)]
pub struct Error(String);

impl View for Error {
    type V = Seq<char>;

    closed spec fn view(&self) -> Seq<char> {
        self.0@
    }
}

impl Error {
    /// An error with the message `message`.
    pub fn new(message: String) -> (error: Self)
        ensures
            error@ == message@,
    {
        Error(message)
    }

    /// The message of the error.
    pub fn message(&self) -> (message: &str)
        ensures
            message@ == self@,
    {
        self.0.as_str()
    }

    /// The message of the error, as a text of its own.
    pub fn to_text(&self) -> (text: String)
        ensures
            text@ == self@,
    {
        self.0.clone()
    }
}

} // verus!
