//! Colour commands and the render calls that carry them to the light.

use vstd::prelude::*;

verus! {

/// Red channel of the colour the light shows when none is asked for.
pub const DEFAULT_RED: i32 = 39;

/// Green channel of the colour the light shows when none is asked for.
pub const DEFAULT_GREEN: i32 = 103;

/// Blue channel of the colour the light shows when none is asked for.
pub const DEFAULT_BLUE: i32 = 245;

/// One of the three channels of a colour.
#[derive(Clone, Copy, Debug, PartialEq, Eq, Structural)]
pub enum Channel {
    Red,
    Green,
    Blue,
}

/// The colour every pixel of the light is set to by one render call.
///
/// The channels are whole numbers, usually between 0 and 255; values outside
/// that range are handed on as they are.
#[derive(Clone, Copy, Debug, PartialEq, Eq, Structural)]
pub struct ColorCommand {
    pub red: i32,
    pub green: i32,
    pub blue: i32,
}

impl ColorCommand {
    /// The colour shown when no colour is asked for.
    pub open spec fn spec_default_color() -> ColorCommand {
        ColorCommand { red: DEFAULT_RED, green: DEFAULT_GREEN, blue: DEFAULT_BLUE }
    }

    /// The colour of a light that is switched off: every channel at zero.
    pub open spec fn spec_off() -> ColorCommand {
        ColorCommand { red: 0, green: 0, blue: 0 }
    }

    /// The value of one channel.
    pub open spec fn spec_channel(self, channel: Channel) -> i32 {
        match channel {
            Channel::Red => self.red,
            Channel::Green => self.green,
            Channel::Blue => self.blue,
        }
    }

    pub fn new(red: i32, green: i32, blue: i32) -> (command: ColorCommand)
        ensures
            command == (ColorCommand { red, green, blue }),
    {
        ColorCommand { red, green, blue }
    }

    #[verifier::when_used_as_spec(spec_default_color)]
    pub fn default_color() -> (command: ColorCommand)
        ensures
            command == Self::spec_default_color(),
    {
        ColorCommand { red: DEFAULT_RED, green: DEFAULT_GREEN, blue: DEFAULT_BLUE }
    }

    #[verifier::when_used_as_spec(spec_off)]
    pub fn off() -> (command: ColorCommand)
        ensures
            command == Self::spec_off(),
    {
        ColorCommand { red: 0, green: 0, blue: 0 }
    }

    #[verifier::when_used_as_spec(spec_channel)]
    pub fn channel(self, channel: Channel) -> (value: i32)
        ensures
            value == self.spec_channel(channel),
    {
        match channel {
            Channel::Red => self.red,
            Channel::Green => self.green,
            Channel::Blue => self.blue,
        }
    }
}

/// Which LED matrix the light is built from. The two are driven by separate
/// drivers that take the same commands.
#[derive(Clone, Copy, Debug, PartialEq, Eq, Structural)]
pub enum Variant {
    Standard,
    Mini,
}

/// One call of the light driver: which driver, and the colour it is to show.
#[derive(Clone, Copy, Debug, PartialEq, Eq, Structural)]
pub struct RenderCall {
    pub variant: Variant,
    pub color: ColorCommand,
}

} // verus!
