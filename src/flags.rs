use vstd::prelude::*;

verus! {

/// A view over the sixteen-bit flag word of a DNS message header.
#[derive(Debug, Clone, Copy, PartialEq, Eq)]
pub struct Flags(pub u16);

impl Flags {
    /// Bit 15: the message is a response.
    pub fn question_response(&self) -> (r: bool)
        ensures
            r == (self.0 & 0x8000u16 != 0),
    {
        self.0 & 0x8000 != 0
    }

    /// Bits 14 to 11: the kind of query.
    pub fn operation_code(&self) -> (r: u16)
        ensures
            r == (self.0 >> 11u16) & 0xfu16,
            r < 16,
    {
        let w = self.0;
        let r = (w >> 11u16) & 0xfu16;
        assert(((w >> 11u16) & 0xfu16) < 16) by (bit_vector);
        r
    }

    /// Bit 10: the responding server is an authority for the name.
    pub fn authoritative_answer(&self) -> (r: bool)
        ensures
            r == (self.0 & 0x0400u16 != 0),
    {
        self.0 & 0x0400 != 0
    }

    /// Bit 9: the message was truncated.
    pub fn truncation_occurred(&self) -> (r: bool)
        ensures
            r == (self.0 & 0x0200u16 != 0),
    {
        self.0 & 0x0200 != 0
    }

    /// Bit 8: recursion was asked for.
    pub fn recursion_desired(&self) -> (r: bool)
        ensures
            r == (self.0 & 0x0100u16 != 0),
    {
        self.0 & 0x0100 != 0
    }

    /// Bit 7: the server offers recursion.
    pub fn recursion_available(&self) -> (r: bool)
        ensures
            r == (self.0 & 0x0080u16 != 0),
    {
        self.0 & 0x0080 != 0
    }

    /// Bit 6: reserved, zero in a well-formed message.
    pub fn must_be_zero(&self) -> (r: bool)
        ensures
            r == (self.0 & 0x0040u16 != 0),
    {
        self.0 & 0x0040 != 0
    }

    /// Bit 5: the data was authenticated.
    pub fn authentic_data(&self) -> (r: bool)
        ensures
            r == (self.0 & 0x0020u16 != 0),
    {
        self.0 & 0x0020 != 0
    }

    /// Bit 4: checking was disabled.
    pub fn checking_disabled(&self) -> (r: bool)
        ensures
            r == (self.0 & 0x0010u16 != 0),
    {
        self.0 & 0x0010 != 0
    }

    /// Bits 3 to 0: the response code.
    pub fn response_code(&self) -> (r: u16)
        ensures
            r == self.0 & 0xfu16,
            r < 16,
    {
        let w = self.0;
        let r = w & 0xfu16;
        assert((w & 0xfu16) < 16) by (bit_vector);
        r
    }
}

} // verus!
