//! Handlers that pass USB requests on to a device of the host.
//!
//! A handler holds the handle of the opened device. For each request it names
//! the transfer that is to be run on that handle, and turns what the transfer
//! brought into the reply. Running the transfer is the caller's part.
use vstd::prelude::*;

verus! {

/// The direction of an endpoint, seen from the host.
#[derive(Clone, Copy, Debug, PartialEq, Eq, Structural)]
pub enum Direction {
    In,
    Out,
}

/// The kind of transfer that an endpoint takes.
#[derive(Clone, Copy, Debug, PartialEq, Eq, Structural)]
pub enum EndpointAttributes {
    Control,
    Isochronous,
    Bulk,
    Interrupt,
}

/// The number that stands for a kind of transfer in an endpoint descriptor.
pub open spec fn spec_attributes_code(attributes: EndpointAttributes) -> u8 {
    match attributes {
        EndpointAttributes::Control => 0,
        EndpointAttributes::Isochronous => 1,
        EndpointAttributes::Bulk => 2,
        EndpointAttributes::Interrupt => 3,
    }
}

impl EndpointAttributes {
    /// The number that stands for this kind of transfer in an endpoint
    /// descriptor.
    pub fn code(self) -> (code: u8)
        ensures
            code == spec_attributes_code(self),
    {
        match self {
            EndpointAttributes::Control => 0,
            EndpointAttributes::Isochronous => 1,
            EndpointAttributes::Bulk => 2,
            EndpointAttributes::Interrupt => 3,
        }
    }
}

/// An endpoint of a USB interface.
#[derive(Clone, Copy, Debug, PartialEq, Eq, Structural)]
pub struct UsbEndpoint {
    /// The address; its highest bit is set for an endpoint that sends to the
    /// host.
    pub address: u8,
    /// The kind of transfer, as a number.
    pub attributes: u8,
    /// The largest packet that the endpoint takes.
    pub max_packet_size: u16,
    /// The polling interval.
    pub interval: u8,
}

/// The direction that an endpoint address stands for.
pub open spec fn spec_direction(address: u8) -> Direction {
    if address & 0x80 != 0 {
        Direction::In
    } else {
        Direction::Out
    }
}

impl UsbEndpoint {
    /// The direction of the endpoint.
    pub fn direction(&self) -> (direction: Direction)
        ensures
            direction == spec_direction(self.address),
    {
        if self.address & 0x80 != 0 {
            Direction::In
        } else {
            Direction::Out
        }
    }
}

/// The setup packet of a control request.
#[derive(Clone, Copy, Debug, PartialEq, Eq, Structural)]
pub struct SetupPacket {
    pub request_type: u8,
    pub request: u8,
    pub value: u16,
    pub index: u16,
    pub length: u16,
}

/// The transfer that a request asks for on the device of the host.
#[derive(Clone, Copy, Debug, PartialEq, Eq, Structural)]
pub enum Transfer {
    /// Read the answer to a control request into the buffer.
    ReadControl(SetupPacket),
    /// Send the data of the request with a control request.
    WriteControl(SetupPacket),
    /// Read from the interrupt endpoint with this address into the buffer.
    ReadInterrupt(u8),
    /// Send the data of the request to the interrupt endpoint with this
    /// address.
    WriteInterrupt(u8),
    /// Read from the bulk endpoint with this address into the buffer.
    ReadBulk(u8),
    /// Send the data of the request to the bulk endpoint with this address.
    WriteBulk(u8),
    /// The endpoint takes no transfer that is passed on.
    Nothing,
}

/// The number of seconds after which a transfer is given up.
pub const TRANSFER_TIMEOUT_SECS: u64 = 1;

impl Transfer {
    /// Whether the transfer reads from the device.
    pub open spec fn is_read(self) -> bool {
        self is ReadControl || self is ReadInterrupt || self is ReadBulk
    }

    /// Whether the transfer reads from the device.
    pub fn reads(&self) -> (r: bool)
        ensures
            r == self.is_read(),
    {
        match self {
            Transfer::ReadControl(_) | Transfer::ReadInterrupt(_) | Transfer::ReadBulk(_) => true,
            _ => false,
        }
    }
}

/// The transfer for a request to an endpoint of an interface: by the kind of
/// the endpoint a control, interrupt or bulk transfer, by its direction a read
/// or a write; for any other kind of endpoint none.
pub open spec fn spec_interface_transfer(ep: UsbEndpoint, setup: SetupPacket) -> Transfer {
    if ep.attributes == spec_attributes_code(EndpointAttributes::Control) {
        if spec_direction(ep.address) is In {
            Transfer::ReadControl(setup)
        } else {
            Transfer::WriteControl(setup)
        }
    } else if ep.attributes == spec_attributes_code(EndpointAttributes::Interrupt) {
        if spec_direction(ep.address) is In {
            Transfer::ReadInterrupt(ep.address)
        } else {
            Transfer::WriteInterrupt(ep.address)
        }
    } else if ep.attributes == spec_attributes_code(EndpointAttributes::Bulk) {
        if spec_direction(ep.address) is In {
            Transfer::ReadBulk(ep.address)
        } else {
            Transfer::WriteBulk(ep.address)
        }
    } else {
        Transfer::Nothing
    }
}

/// The transfer for a request to the device itself: a control transfer, a
/// read when the highest bit of the request type is set and a write
/// otherwise.
pub open spec fn spec_device_transfer(setup: SetupPacket) -> Transfer {
    if setup.request_type & 0x80 == 0 {
        Transfer::WriteControl(setup)
    } else {
        Transfer::ReadControl(setup)
    }
}

/// The reply to a request: what a read brought, and nothing after a write, a
/// failed read, or no transfer at all.
pub open spec fn spec_reply(transfer: Transfer, buffer: Seq<u8>, transferred: Option<usize>) -> Seq<
    u8,
> {
    match transferred {
        Some(len) if transfer.is_read() => buffer.take(len as int),
        _ => Seq::empty(),
    }
}

/// A buffer of the given length for a read to fill, all zero.
pub fn transfer_buffer(transfer_buffer_length: u32) -> (buffer: Vec<u8>)
    ensures
        buffer@.len() == transfer_buffer_length,
        forall|i: int| 0 <= i < buffer@.len() ==> buffer@[i] == 0,
{
    let mut buffer: Vec<u8> = Vec::new();
    let mut filled: u32 = 0;
    while filled < transfer_buffer_length
        invariant
            filled <= transfer_buffer_length,
            buffer@.len() == filled,
            forall|i: int| 0 <= i < buffer@.len() ==> buffer@[i] == 0,
        decreases transfer_buffer_length - filled,
    {
        buffer.push(0);
        filled += 1;
    }
    buffer
}

/// The reply to a request, from the buffer that the transfer was given and
/// the number of bytes that it brought, if it succeeded.
pub fn reply(transfer: &Transfer, buffer: &[u8], transferred: Option<usize>) -> (data: Vec<u8>)
    requires
        transfer.is_read() && transferred is Some ==> transferred->Some_0 <= buffer@.len(),
    ensures
        data@ == spec_reply(*transfer, buffer@, transferred),
{
    let mut data: Vec<u8> = Vec::new();
    if let Some(len) = transferred {
        if transfer.reads() {
            let mut i: usize = 0;
            while i < len
                invariant
                    i <= len <= buffer@.len(),
                    data@ == buffer@.take(i as int),
                decreases len - i,
            {
                data.push(buffer[i]);
                assert(data@ =~= buffer@.take(i + 1));
                i += 1;
            }
        }
    }
    data
}

/// A handler that passes the requests to an interface on to a device of the
/// host.
pub struct UsbHostInterfaceHandler<H> {
    handle: H,
}

impl<H: Clone> Clone for UsbHostInterfaceHandler<H> {
    fn clone(&self) -> Self {
        Self { handle: self.handle.clone() }
    }
}

impl<H> UsbHostInterfaceHandler<H> {
    /// The handle of the device that the requests are passed on to.
    pub closed spec fn device(&self) -> H {
        self.handle
    }

    /// A handler for the device with this handle.
    pub fn new(handle: H) -> (handler: Self)
        ensures
            handler.device() == handle,
    {
        Self { handle }
    }

    /// The handle of the device.
    pub fn handle(&self) -> (handle: &H)
        ensures
            *handle == self.device(),
    {
        &self.handle
    }

    /// The transfer that a request to an endpoint asks for.
    pub fn plan_urb(&self, ep: UsbEndpoint, setup: SetupPacket) -> (transfer: Transfer)
        ensures
            transfer == spec_interface_transfer(ep, setup),
    {
        if ep.attributes == EndpointAttributes::Control.code() {
            match ep.direction() {
                Direction::In => Transfer::ReadControl(setup),
                Direction::Out => Transfer::WriteControl(setup),
            }
        } else if ep.attributes == EndpointAttributes::Interrupt.code() {
            match ep.direction() {
                Direction::In => Transfer::ReadInterrupt(ep.address),
                Direction::Out => Transfer::WriteInterrupt(ep.address),
            }
        } else if ep.attributes == EndpointAttributes::Bulk.code() {
            match ep.direction() {
                Direction::In => Transfer::ReadBulk(ep.address),
                Direction::Out => Transfer::WriteBulk(ep.address),
            }
        } else {
            Transfer::Nothing
        }
    }

    /// The class-specific descriptor of the interface: there is none.
    pub fn get_class_specific_descriptor(&self) -> (descriptor: Vec<u8>)
        ensures
            descriptor@.len() == 0,
    {
        Vec::new()
    }
}

/// A handler that passes the requests to a device on to a device of the host.
pub struct UsbHostDeviceHandler<H> {
    handle: H,
}

impl<H: Clone> Clone for UsbHostDeviceHandler<H> {
    fn clone(&self) -> Self {
        Self { handle: self.handle.clone() }
    }
}

impl<H> UsbHostDeviceHandler<H> {
    /// The handle of the device that the requests are passed on to.
    pub closed spec fn device(&self) -> H {
        self.handle
    }

    /// A handler for the device with this handle.
    pub fn new(handle: H) -> (handler: Self)
        ensures
            handler.device() == handle,
    {
        Self { handle }
    }

    /// The handle of the device.
    pub fn handle(&self) -> (handle: &H)
        ensures
            *handle == self.device(),
    {
        &self.handle
    }

    /// The transfer that a request to the device asks for.
    pub fn plan_urb(&self, setup: SetupPacket) -> (transfer: Transfer)
        ensures
            transfer == spec_device_transfer(setup),
    {
        if setup.request_type & 0x80 == 0 {
            Transfer::WriteControl(setup)
        } else {
            Transfer::ReadControl(setup)
        }
    }
}

} // verus!
