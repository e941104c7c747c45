use vstd::prelude::*;

verus! {

/// The semantic fields of the parameter block the firmware's multiboot
/// service consumes.  The firmware wants these at fixed byte offsets
/// inside a padded record; producing that raw layout is the caller's
/// concern, the library fills in the values.
///
/// `boot_srcp` and `boot_endp` are host addresses: the payload region
/// that remains once the 0xC0-byte cartridge header has been streamed.
#[derive(Clone, Copy)]
pub struct MultibootParameter {
    pub handshake_data: u8,
    pub client_data: [u8; 3],
    pub palette_data: u8,
    pub client_bit: u8,
    pub boot_srcp: usize,
    pub boot_endp: usize,
}

impl Default for MultibootParameter {
    /// A fresh block: no clients, absent-client data bytes (0xFF), the
    /// default palette byte 0x81, and no payload region yet.
    fn default() -> (r: Self)
        ensures
            r.handshake_data == 0,
            r.client_data == [0xffu8, 0xff, 0xff],
            r.palette_data == 0x81,
            r.client_bit == 0,
            r.boot_srcp == 0,
            r.boot_endp == 0,
    {
        MultibootParameter {
            handshake_data: 0,
            client_data: [0xff, 0xff, 0xff],
            palette_data: 0x81,
            client_bit: 0,
            boot_srcp: 0,
            boot_endp: 0,
        }
    }
}

/// Transfer mode selector of the firmware's multiboot service.
#[derive(Clone, Copy, PartialEq, Eq, Structural)]
pub enum MultibootTransferMode {
    Normal,
    MultiPlay,
    NormalUnstable,
}

impl MultibootTransferMode {
    /// The numeric selector the firmware expects in its mode argument.
    pub fn mode_value(self) -> (v: u8)
        ensures
            v == (match self {
                MultibootTransferMode::Normal => 0u8,
                MultibootTransferMode::MultiPlay => 1u8,
                MultibootTransferMode::NormalUnstable => 2u8,
            }),
    {
        match self {
            MultibootTransferMode::Normal => 0,
            MultibootTransferMode::MultiPlay => 1,
            MultibootTransferMode::NormalUnstable => 2,
        }
    }
}

/// The handshake byte: `(0x11 + a + b + c) mod 256` over the three
/// client data bytes.
pub open spec fn handshake_spec(a: u8, b: u8, c: u8) -> u8 {
    ((0x11 + a + b + c) % 256) as u8
}

/// Computes the handshake byte from the three client data bytes.
pub fn handshake_of(a: u8, b: u8, c: u8) -> (h: u8)
    ensures
        h == handshake_spec(a, b, c),
{
    let sum: u16 = 0x11 + a as u16 + b as u16 + c as u16;
    (sum % 256) as u8
}

} // verus!
