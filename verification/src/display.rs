//! The display handle: what is known of an opened display, and the
//! exchanges that its three operations amount to.

use vstd::prelude::*;
use crate::codec::{packed, rgba_to_rgb565, solid, solid_rgb565};
use crate::command::{
    backlight_bytes, blit_bytes, blit_payload_len, dimensions_of, parse_dimensions, CommandBlock,
    MAX_BRIGHTNESS,
};
use crate::compositor::{fit_to_display, fitted};
use crate::error::{check_status, AX206Error};
use crate::frame::{rgba_len, RgbaFrame};
use crate::lifecycle::Teardown;
use crate::transport::{started, Direction, Exchange};

verus! {

/// An opened display. The handle is neither copied nor cloned: it is made
/// once when the display is opened and used up when the display is closed.
#[derive(Debug, PartialEq, Eq, Structural)]
pub struct AX206LCD {
    /// Width in pixels, as the display reported it when it was opened.
    pub width: u16,
    /// Height in pixels, as the display reported it when it was opened.
    pub height: u16,
    /// Whether transfers are to be logged in detail.
    pub debug: bool,
    /// Whether the kernel driver was detached when the display was opened,
    /// and so has to be attached again when it is closed.
    pub kernel_detached: bool,
}

impl AX206LCD {
    /// Makes the handle from the answer to the dimension query: the status
    /// byte of the exchange and the response it brought. A non-zero status
    /// is fatal; otherwise the response gives width and height.
    pub fn new(debug: bool, kernel_detached: bool, status: u8, response: &[u8]) -> (r: Result<
        AX206LCD,
        AX206Error,
    >)
        ensures
            status != 0 ==> r == Err::<AX206LCD, AX206Error>(AX206Error::ScsiCommandFailed(status)),
            status == 0 ==> r == Ok::<AX206LCD, AX206Error>(
                AX206LCD {
                    width: dimensions_of(response@).0,
                    height: dimensions_of(response@).1,
                    debug,
                    kernel_detached,
                },
            ),
    {
        match check_status(status) {
            Err(e) => Err(e),
            Ok(()) => {
                let (width, height) = parse_dimensions(response);
                Ok(AX206LCD { width, height, debug, kernel_detached })
            },
        }
    }

    /// The exchange that sets the backlight. A brightness above 7 is
    /// refused and no exchange is made, so nothing is sent.
    pub fn set_backlight(&self, brightness: u8) -> (r: Result<Exchange, AX206Error>)
        ensures
            brightness <= MAX_BRIGHTNESS ==> r is Ok && r->Ok_0@ == started(
                backlight_bytes(brightness),
                Direction::Out,
                None,
            ),
            brightness > MAX_BRIGHTNESS ==> r is Err && r->Err_0 == AX206Error::InvalidBrightness(
                brightness,
            ),
    {
        match CommandBlock::backlight(brightness) {
            Ok(command) => Ok(Exchange::new(&command, Direction::Out, None)),
            Err(e) => Err(e),
        }
    }

    /// The exchange that fills the whole display with one colour.
    pub fn clear(&self, color: (u8, u8, u8)) -> (e: Exchange)
        requires
            self.width >= 1,
            self.height >= 1,
            2 * (self.width * self.height) <= isize::MAX,
        ensures
            e@ == started(
                blit_bytes(0, 0, (self.width - 1) as u16, (self.height - 1) as u16),
                Direction::Out,
                Some(solid(self.width as nat * self.height as nat, color.0, color.1, color.2)),
            ),
            e@.buffer->Some_0.len() == blit_payload_len(
                0,
                0,
                (self.width - 1) as u16,
                (self.height - 1) as u16,
            ),
    {
        let count: usize = (self.width as usize) * (self.height as usize);
        let payload = solid_rgb565(count, color.0, color.1, color.2);
        let command = CommandBlock::blit(0, 0, self.width - 1, self.height - 1);
        Exchange::new(&command, Direction::Out, Some(payload))
    }

    /// The exchange that shows a picture: the picture fitted to the display,
    /// packed as RGB565, sent as one blit of the whole display.
    pub fn draw(&self, image: &RgbaFrame) -> (e: Exchange)
        requires
            self.width >= 1,
            self.height >= 1,
            rgba_len(self.width as nat, self.height as nat) <= isize::MAX,
            16 * (image@.width * self.height) <= isize::MAX,
        ensures
            e@ == started(
                blit_bytes(0, 0, (self.width - 1) as u16, (self.height - 1) as u16),
                Direction::Out,
                Some(packed(fitted(image@, self.width, self.height))),
            ),
            e@.buffer->Some_0.len() == blit_payload_len(
                0,
                0,
                (self.width - 1) as u16,
                (self.height - 1) as u16,
            ),
    {
        let fitted_frame = fit_to_display(image, self.width, self.height);
        let payload = rgba_to_rgb565(&fitted_frame);
        let command = CommandBlock::blit(0, 0, self.width - 1, self.height - 1);
        Exchange::new(&command, Direction::Out, Some(payload))
    }

    /// Gives the handle up. What is returned says what is owed to the
    /// system: the interface is to be released, and the kernel driver to be
    /// attached again if it was detached on opening.
    pub fn close(self) -> (t: Teardown)
        ensures
            t == (Teardown { release: true, reattach: self.kernel_detached }),
    {
        Teardown { release: true, reattach: self.kernel_detached }
    }
}

} // verus!
