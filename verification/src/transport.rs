//! What is decided when a report descriptor is fetched from a device:
//! which interface is asked, what the control transfer asks for, and
//! which failures end the attempt. The transfers themselves are made by
//! the caller.

use crate::Error;
use vstd::prelude::*;

verus! {

/// The class code of HID interfaces.
pub const HID_CLASS_CODE: u8 = 3;

/// The size of the buffer that receives a report descriptor.
pub const DESCRIPTOR_BUFFER_LEN: usize = 4096;

/// The number of seconds after which a control transfer is given up.
pub const TRANSFER_TIMEOUT_SECS: u64 = 1;

/// What is read of one interface descriptor of a device.
#[derive(Debug, Clone, Copy, PartialEq, Eq, Structural)]
pub struct InterfaceDescriptor {
    pub class_code: u8,
    pub interface_number: u8,
}

/// The kinds of failure that a USB operation reports.
#[derive(Debug, Clone, Copy, PartialEq, Eq, Structural)]
pub enum UsbErrorKind {
    Io,
    InvalidParam,
    Access,
    NoDevice,
    NotFound,
    Busy,
    Timeout,
    Overflow,
    Pipe,
    Interrupted,
    NoMem,
    NotSupported,
    BadDescriptor,
    Other,
}

/// A failed USB operation: its kind and the message that describes it.
#[derive(Debug)]
pub struct UsbFailure {
    pub kind: UsbErrorKind,
    pub message: String,
}

/// The fields of a control transfer that reads from a device.
#[derive(Debug, Clone, Copy, PartialEq, Eq, Structural)]
pub struct ControlRequest {
    pub request_type: u8,
    pub request: u8,
    pub value: u16,
    pub index: u16,
    pub buffer_len: usize,
    pub timeout_secs: u64,
}

/// Whether `descriptors` holds a HID interface at `i`.
pub open spec fn is_hid_at(descriptors: Seq<InterfaceDescriptor>, i: int) -> bool {
    0 <= i < descriptors.len() && descriptors[i].class_code == HID_CLASS_CODE
}

/// Whether the HID interface at `i` is the first of `descriptors`.
pub open spec fn is_first_hid_at(descriptors: Seq<InterfaceDescriptor>, i: int) -> bool {
    is_hid_at(descriptors, i) && forall|j: int| 0 <= j < i ==> !is_hid_at(descriptors, j)
}

/// The number of the first HID interface among `descriptors`, which
/// hold the interface descriptors of a device in the order in which the
/// device lists them. Fails where the device has no HID interface.
pub fn get_hid_interface_number(descriptors: &[InterfaceDescriptor]) -> (result: Result<u8, Error>)
    ensures
        result is Ok <==> exists|i: int| is_hid_at(descriptors@, i),
        result is Ok ==> exists|i: int|
            is_first_hid_at(descriptors@, i) && descriptors@[i].interface_number == result->Ok_0,
        result is Err ==> result->Err_0@ == "HID interface not found"@,
{
    let mut i: usize = 0;
    while i < descriptors.len()
        invariant
            i <= descriptors.len(),
            forall|j: int| 0 <= j < i ==> !is_hid_at(descriptors@, j),
        decreases descriptors.len() - i,
    {
        if descriptors[i].class_code == HID_CLASS_CODE {
            assert(is_first_hid_at(descriptors@, i as int));
            return Ok(descriptors[i].interface_number);
        }
        i += 1;
    }
    Err(Error::new("HID interface not found".to_string()))
}

/// Whether an interface has to be claimed before it is read, on the
/// operating system named `os`: on Linux and nowhere else.
pub fn claims_interface(os: &str) -> (claims: bool)
    ensures
        claims == (os@ == "linux"@),
{
    let given = String::from_str(os);
    let linux = String::from_str("linux");
    given == linux
}

/// The error for a failed USB operation: it carries the message of the
/// failure.
pub fn usb_error(failure: UsbFailure) -> (error: Error)
    ensures
        error@ == failure.message@,
{
    Error::new(failure.message)
}

/// What follows from the attempt to have the kernel driver detached: a
/// platform that does not support it needs none, every other failure
/// ends the fetch.
pub fn check_detach(outcome: Result<(), UsbFailure>) -> (result: Result<(), Error>)
    ensures
        result is Ok <==> (outcome is Ok || outcome->Err_0.kind is NotSupported),
        result is Err ==> result->Err_0@ == outcome->Err_0.message@,
{
    match outcome {
        Ok(()) => Ok(()),
        Err(failure) => match failure.kind {
            UsbErrorKind::NotSupported => Ok(()),
            _ => Err(usb_error(failure)),
        },
    }
}

/// The part of the buffer that a transfer of `size` bytes has filled.
pub fn received_bytes(buffer: &[u8], size: usize) -> (bytes: Vec<u8>)
    requires
        size <= buffer@.len(),
    ensures
        bytes@ == buffer@.take(size as int),
{
    let mut bytes: Vec<u8> = Vec::new();
    let mut i: usize = 0;
    while i < size
        invariant
            i <= size <= buffer@.len(),
            bytes@ == buffer@.take(i as int),
        decreases size - i,
    {
        bytes.push(buffer[i]);
        i += 1;
    }
    bytes
}

/// The request type of a standard read from an interface, as
/// `rusb::request_type` builds it from the direction `In`, the type
/// `Standard` and the recipient `Interface`: the direction bit 0x80, no
/// type bits and the recipient 0x01.
#[verifier::external_body]
fn standard_interface_read_type() -> (request_type: u8)
    ensures
        request_type == 0x81,
{
    rusb::request_type(rusb::Direction::In, rusb::RequestType::Standard, rusb::Recipient::Interface)
}

/// The request code `LIBUSB_REQUEST_GET_DESCRIPTOR`, which
/// `rusb::constants` hands on from `libusb1_sys::constants`: it is 0x06.
#[verifier::external_body]
fn get_descriptor_request() -> (request: u8)
    ensures
        request == 0x06,
{
    rusb::constants::LIBUSB_REQUEST_GET_DESCRIPTOR
}

/// The descriptor type `LIBUSB_DT_REPORT`, which `rusb::constants` hands
/// on from `libusb1_sys::constants`: it is 0x22.
#[verifier::external_body]
fn report_descriptor_type() -> (descriptor_type: u8)
    ensures
        descriptor_type == 0x22,
{
    rusb::constants::LIBUSB_DT_REPORT
}

/// The control transfer that reads the report descriptor of the
/// interface `interface_number`: a standard request to the interface
/// for the descriptor of the report type, into a buffer of 4096 bytes,
/// given up after one second.
pub fn report_descriptor_request(interface_number: u8) -> (request: ControlRequest)
    ensures
        request == (ControlRequest {
            request_type: 0x81,
            request: 0x06,
            value: 0x2200,
            index: interface_number as u16,
            buffer_len: DESCRIPTOR_BUFFER_LEN,
            timeout_secs: TRANSFER_TIMEOUT_SECS,
        }),
{
    let descriptor_type: u16 = report_descriptor_type() as u16;
    assert(0x22u16 << 8 == 0x2200u16) by (bit_vector);
    ControlRequest {
        request_type: standard_interface_read_type(),
        request: get_descriptor_request(),
        value: descriptor_type << 8,
        index: interface_number as u16,
        buffer_len: DESCRIPTOR_BUFFER_LEN,
        timeout_secs: TRANSFER_TIMEOUT_SECS,
    }
}

} // verus!
