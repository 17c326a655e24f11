use vstd::prelude::*;

verus! {

/// Options for creating a device.
#[derive(Debug, Default)]
pub struct Config {
    /// When false, the kernel is asked to omit the protocol-information header
    /// that otherwise precedes every packet read from or written to the device.
    pub packet_information: bool,
}

impl Config {
    /// Asks for the protocol-information header on every packet.
    pub fn enable_packet_information(&mut self) -> (r: &mut Self)
        ensures
            r.packet_information,
            *final(self) == *final(r),
    {
        self.packet_information = true;
        self
    }

    /// Asks the kernel to omit the protocol-information header.
    pub fn disable_packet_information(&mut self) -> (r: &mut Self)
        ensures
            !r.packet_information,
            *final(self) == *final(r),
    {
        self.packet_information = false;
        self
    }
}


} // verus!
