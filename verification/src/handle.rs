//! The handle for one indicator.

use vstd::prelude::*;
use crate::color::Color;
use crate::error::AnybarError;
use crate::wire::ascii_bytes;
use crate::wire::quit_token;
use crate::wire::Datagram;

verus! {

/// The port on which the indicator listens unless it is told otherwise.
pub const DEFAULT_PORT: u16 = 1738;

/// The largest UDP port.
pub const MAX_PORT: u32 = 65535;

/// The handle for one indicator.
#[derive(Debug, PartialEq, Eq, Structural)]
pub struct Anybar {
    /// The UDP port the indicator listens on.
    pub port: u16,
    /// The last colour that has been set through this handle.
    ///
    /// When no colour has been set yet, it is `None`.
    pub color: Option<Color>,
}

impl Anybar {
    /// The handle as `set_color` leaves it: with `color` as its last colour
    /// where the datagram was sent, unchanged where it was not.
    pub open spec fn after_set_color(self, color: Color, sent: bool) -> Anybar {
        if sent {
            Anybar { port: self.port, color: Some(color) }
        } else {
            self
        }
    }

    /// Creates a handle for the indicator that listens on the given UDP port.
    ///
    /// Every port from 0 to 65535 is accepted; a larger number is no port.
    /// Nothing is sent.
    pub fn new(port: u32) -> (result: Result<Anybar, AnybarError>)
        ensures
            port <= MAX_PORT <==> result is Ok,
            result matches Ok(bar) ==> bar.port == port && bar.color is None,
            result matches Err(e) ==> e == AnybarError::InvalidPort,
    {
        if port > MAX_PORT {
            Err(AnybarError::InvalidPort)
        } else {
            Ok(Anybar { port: port as u16, color: None })
        }
    }

    /// Encodes a colour as the payload that asks the indicator for it.
    pub fn parse_color(color: &Color) -> (token: &'static [u8])
        ensures
            token@ == color.token(),
    {
        match color {
            Color::White => {
                proof { reveal_strlit("white"); }
                ascii_bytes("white")
            },
            Color::Red => {
                proof { reveal_strlit("red"); }
                ascii_bytes("red")
            },
            Color::Orange => {
                proof { reveal_strlit("orange"); }
                ascii_bytes("orange")
            },
            Color::Yellow => {
                proof { reveal_strlit("yellow"); }
                ascii_bytes("yellow")
            },
            Color::Green => {
                proof { reveal_strlit("green"); }
                ascii_bytes("green")
            },
            Color::Cyan => {
                proof { reveal_strlit("cyan"); }
                ascii_bytes("cyan")
            },
            Color::Blue => {
                proof { reveal_strlit("blue"); }
                ascii_bytes("blue")
            },
            Color::Purple => {
                proof { reveal_strlit("purple"); }
                ascii_bytes("purple")
            },
            Color::Black => {
                proof { reveal_strlit("black"); }
                ascii_bytes("black")
            },
            Color::Question => {
                proof { reveal_strlit("question"); }
                ascii_bytes("question")
            },
            Color::Exclamation => {
                proof { reveal_strlit("exclamation"); }
                ascii_bytes("exclamation")
            },
        }
    }

    /// The datagram that asks the indicator for `color`. The handle is left
    /// as it is: the colour is recorded by `set_color`, once the datagram has
    /// gone out.
    pub fn color_datagram(&self, color: &Color) -> (datagram: Datagram)
        ensures
            datagram.carries(self.port, color.token()),
    {
        Datagram::to_indicator(self.port, Anybar::parse_color(color))
    }

    /// The datagram that tells the indicator to terminate: the four bytes
    /// `quit`. The handle is left as it is.
    pub fn quit_datagram(&self) -> (datagram: Datagram)
        ensures
            datagram.carries(self.port, quit_token()),
            datagram.payload@.len() == 4,
    {
        proof { reveal_strlit("quit"); }
        let payload = ascii_bytes("quit");
        assert(payload@ =~= quit_token());
        Datagram::to_indicator(self.port, payload)
    }

    /// Sets a new colour.
    ///
    /// `sent` says whether the datagram of `color_datagram` for this colour
    /// was handed over for transmission. Where it was, the colour becomes
    /// the last colour of the handle. Where it was not, the handle stays as
    /// it is and the failure is returned.
    pub fn set_color(&mut self, color: Color, sent: bool) -> (result: Result<(), AnybarError>)
        ensures
            *final(self) == old(self).after_set_color(color, sent),
            sent <==> result is Ok,
            result matches Err(e) ==> e == AnybarError::TransportError,
    {
        if sent {
            self.color = Some(color);
            Ok(())
        } else {
            Err(AnybarError::TransportError)
        }
    }

    /// Ends the use of the handle once the quit signal has gone out.
    ///
    /// `sent` says whether the datagram of `quit_datagram` was handed over
    /// for transmission. The handle is consumed either way.
    pub fn quit(self, sent: bool) -> (result: Result<(), AnybarError>)
        ensures
            sent <==> result is Ok,
            result matches Err(e) ==> e == AnybarError::TransportError,
    {
        if sent {
            Ok(())
        } else {
            Err(AnybarError::TransportError)
        }
    }
}

/// A colour that was set is the last colour of the handle, and a colour set
/// after it takes its place: the handle is as if only the second had been
/// set.
pub proof fn set_color_overwrites(bar: Anybar, first: Color, second: Color)
    ensures
        bar.after_set_color(first, true).color == Some(first),
        bar.after_set_color(first, true).after_set_color(second, true).color == Some(second),
        bar.after_set_color(first, true).after_set_color(second, true) == bar.after_set_color(
            second,
            true,
        ),
{
}

/// A colour whose datagram was not sent leaves no trace on the handle.
pub proof fn failed_set_color_changes_nothing(bar: Anybar, color: Color)
    ensures
        bar.after_set_color(color, false) == bar,
{
}

/// The port of a handle is the same after any attempt to set a colour.
pub proof fn set_color_keeps_port(bar: Anybar, color: Color, sent: bool)
    ensures
        bar.after_set_color(color, sent).port == bar.port,
{
}

impl Default for Anybar {
    /// The handle for an indicator on the default port, 1738.
    fn default() -> (bar: Anybar)
        ensures
            bar.port == DEFAULT_PORT,
            bar.color is None,
    {
        Anybar { port: DEFAULT_PORT, color: None }
    }
}

} // verus!
