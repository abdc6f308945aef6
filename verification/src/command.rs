//! The vendor command set: three fixed 16-byte command blocks and the one
//! response that carries data.

use vstd::prelude::*;
use crate::error::AX206Error;

verus! {

/// Length of every command block.
pub const COMMAND_LEN: usize = 16;

/// First byte of every command block.
pub const PROTOCOL_TAG: u8 = 0xCD;

/// Highest brightness the backlight accepts.
pub const MAX_BRIGHTNESS: u8 = 7;

/// Length of the response to the dimension query.
pub const DIMENSIONS_LEN: usize = 5;

/// Low byte of a 16-bit value.
pub open spec fn lo(v: u16) -> u8 {
    (v % 256) as u8
}

/// High byte of a 16-bit value.
pub open spec fn hi(v: u16) -> u8 {
    (v / 256) as u8
}

/// The 16-bit value with low byte `b0` and high byte `b1`.
pub open spec fn le16(b0: u8, b1: u8) -> u16 {
    (b0 + 256 * b1) as u16
}

/// The block that asks the display for its dimensions.
pub open spec fn query_dimensions_bytes() -> Seq<u8> {
    seq![0xCDu8, 0, 0, 0, 0, 0x02, 0, 0, 0, 0, 0, 0, 0, 0, 0, 0]
}

/// The block that sets the backlight to `level`.
pub open spec fn backlight_bytes(level: u8) -> Seq<u8> {
    seq![0xCDu8, 0, 0, 0, 0, 0x06, 0x01, 0x01, 0x00, level, 0, 0, 0, 0, 0, 0]
}

/// The block that announces pixel data for the inclusive rectangle from
/// `(x0, y0)` to `(x1, y1)`, each coordinate little-endian.
pub open spec fn blit_bytes(x0: u16, y0: u16, x1: u16, y1: u16) -> Seq<u8> {
    seq![
        0xCDu8, 0, 0, 0, 0, 0x06, 0x12,
        lo(x0), hi(x0), lo(y0), hi(y0), lo(x1), hi(x1), lo(y1), hi(y1),
        0x00,
    ]
}

/// Bytes of RGB565 data that a blit of the inclusive rectangle from
/// `(x0, y0)` to `(x1, y1)` carries.
pub open spec fn blit_payload_len(x0: u16, y0: u16, x1: u16, y1: u16) -> int {
    (x1 - x0 + 1) * (y1 - y0 + 1) * 2
}

/// Width and height as the display reports them: two little-endian 16-bit
/// values at the start of the response. Bytes that were not received count
/// as zero; a fifth byte is reserved and ignored.
pub open spec fn dimensions_of(response: Seq<u8>) -> (u16, u16) {
    let b = |i: int| if i < response.len() { response[i] } else { 0u8 };
    (le16(b(0), b(1)), le16(b(2), b(3)))
}

/// An immutable 16-byte command block. It can only be made by one of the
/// three builders, so it always starts with the protocol tag.
pub struct CommandBlock {
    bytes: [u8; 16],
}

impl View for CommandBlock {
    type V = Seq<u8>;

    closed spec fn view(&self) -> Seq<u8> {
        self.bytes@
    }
}

impl CommandBlock {
    #[verifier::type_invariant]
    spec fn well_formed(self) -> bool {
        self.bytes@[0] == PROTOCOL_TAG
    }

    /// The dimension query.
    pub fn query_dimensions() -> (block: CommandBlock)
        ensures
            block@ == query_dimensions_bytes(),
    {
        let bytes: [u8; 16] = [0xCD, 0, 0, 0, 0, 0x02, 0, 0, 0, 0, 0, 0, 0, 0, 0, 0];
        assert(bytes@ =~= query_dimensions_bytes());
        CommandBlock { bytes }
    }

    /// The backlight command, for a brightness of at most 7; any other
    /// brightness is refused.
    pub fn backlight(level: u8) -> (r: Result<CommandBlock, AX206Error>)
        ensures
            level <= MAX_BRIGHTNESS ==> r is Ok && r->Ok_0@ == backlight_bytes(level),
            level > MAX_BRIGHTNESS ==> r == Err::<CommandBlock, AX206Error>(
                AX206Error::InvalidBrightness(level),
            ),
    {
        if level > MAX_BRIGHTNESS {
            return Err(AX206Error::InvalidBrightness(level));
        }
        let bytes: [u8; 16] = [0xCD, 0, 0, 0, 0, 0x06, 0x01, 0x01, 0x00, level, 0, 0, 0, 0, 0, 0];
        assert(bytes@ =~= backlight_bytes(level));
        Ok(CommandBlock { bytes })
    }

    /// The blit command for the inclusive rectangle from `(x0, y0)` to
    /// `(x1, y1)`.
    pub fn blit(x0: u16, y0: u16, x1: u16, y1: u16) -> (block: CommandBlock)
        ensures
            block@ == blit_bytes(x0, y0, x1, y1),
    {
        let bytes: [u8; 16] = [
            0xCD, 0, 0, 0, 0, 0x06, 0x12,
            (x0 % 256) as u8, (x0 / 256) as u8,
            (y0 % 256) as u8, (y0 / 256) as u8,
            (x1 % 256) as u8, (x1 / 256) as u8,
            (y1 % 256) as u8, (y1 / 256) as u8,
            0x00,
        ];
        assert(bytes@ =~= blit_bytes(x0, y0, x1, y1));
        CommandBlock { bytes }
    }

    /// The sixteen bytes of the block.
    pub fn bytes(&self) -> (b: &[u8; 16])
        ensures
            b@ == self@,
            b@.len() == COMMAND_LEN,
            b@[0] == PROTOCOL_TAG,
    {
        proof {
            use_type_invariant(self);
        }
        &self.bytes
    }
}

/// Decodes the response to the dimension query into `(width, height)`.
pub fn parse_dimensions(response: &[u8]) -> (dims: (u16, u16))
    ensures
        dims == dimensions_of(response@),
{
    let b0: u8 = if response.len() > 0 { response[0] } else { 0 };
    let b1: u8 = if response.len() > 1 { response[1] } else { 0 };
    let b2: u8 = if response.len() > 2 { response[2] } else { 0 };
    let b3: u8 = if response.len() > 3 { response[3] } else { 0 };
    (b0 as u16 + 256 * (b1 as u16), b2 as u16 + 256 * (b3 as u16))
}

} // verus!
