//! What the light starts with: a colour and a hardware variant, both taken
//! from the command line.
//!
//! The first three positional arguments are the red, green and blue channel.
//! A channel without an argument takes its default; an argument that is no
//! number stops the start. Arguments after the third are not looked at.

use vstd::prelude::*;
use crate::color::{Channel, ColorCommand, RenderCall, Variant};
use crate::decimal::{channel_value, decimal_text, lemma_decimal_text_value, parse_channel};

verus! {

/// Why the light cannot start.
#[derive(Clone, Copy, Debug, PartialEq, Eq, Structural)]
pub enum ConfigError {
    /// The argument for this channel is not a whole number in decimal that
    /// fits a channel.
    Malformed(Channel),
}

/// What the start of the light is decided to be.
#[derive(Clone, Copy, Debug, PartialEq, Eq, Structural)]
pub struct StartupPlan {
    pub variant: Variant,
    pub color: ColorCommand,
}

/// The text of each argument.
pub open spec fn texts(tokens: Seq<String>) -> Seq<Seq<char>> {
    Seq::new(tokens.len(), |i: int| tokens[i]@)
}

/// The place of a channel's argument among the positional arguments.
pub open spec fn channel_position(channel: Channel) -> int {
    match channel {
        Channel::Red => 0,
        Channel::Green => 1,
        Channel::Blue => 2,
    }
}

/// The value a channel has when no argument is given for it.
pub open spec fn default_channel(channel: Channel) -> i32 {
    ColorCommand::spec_default_color().spec_channel(channel)
}

/// The value one channel starts with: that of its argument where there is one,
/// its default where there is none.
pub open spec fn channel_argument(tokens: Seq<Seq<char>>, channel: Channel) -> Result<
    i32,
    ConfigError,
> {
    if channel_position(channel) < tokens.len() {
        match channel_value(tokens[channel_position(channel)]) {
            Some(value) => Ok(value),
            None => Err(ConfigError::Malformed(channel)),
        }
    } else {
        Ok(default_channel(channel))
    }
}

/// The colour the light starts with. Of several arguments that are no
/// numbers, the first is reported.
pub open spec fn startup_color(tokens: Seq<Seq<char>>) -> Result<ColorCommand, ConfigError> {
    match channel_argument(tokens, Channel::Red) {
        Err(e) => Err(e),
        Ok(red) => match channel_argument(tokens, Channel::Green) {
            Err(e) => Err(e),
            Ok(green) => match channel_argument(tokens, Channel::Blue) {
                Err(e) => Err(e),
                Ok(blue) => Ok(ColorCommand { red, green, blue }),
            },
        },
    }
}

/// The variant that the flag selects: the mini matrix only where the flag is
/// given and set.
pub open spec fn selected_variant(mini: Option<bool>) -> Variant {
    if mini == Some(true) {
        Variant::Mini
    } else {
        Variant::Standard
    }
}

/// The start that the command line asks for.
pub open spec fn startup_plan(tokens: Seq<Seq<char>>, mini: Option<bool>) -> Result<
    StartupPlan,
    ConfigError,
> {
    match startup_color(tokens) {
        Ok(color) => Ok(StartupPlan { variant: selected_variant(mini), color }),
        Err(e) => Err(e),
    }
}

fn read_channel(tokens: &Vec<String>, channel: Channel) -> (value: Result<i32, ConfigError>)
    ensures
        value == channel_argument(texts(tokens@), channel),
{
    let position: usize = match channel {
        Channel::Red => 0,
        Channel::Green => 1,
        Channel::Blue => 2,
    };
    if position < tokens.len() {
        match parse_channel(tokens[position].as_str()) {
            Some(value) => Ok(value),
            None => Err(ConfigError::Malformed(channel)),
        }
    } else {
        Ok(ColorCommand::default_color().channel(channel))
    }
}

/// Resolves the colour the light starts with from the positional arguments.
pub fn resolve_startup_color(tokens: &Vec<String>) -> (color: Result<ColorCommand, ConfigError>)
    ensures
        color == startup_color(texts(tokens@)),
{
    let red = match read_channel(tokens, Channel::Red) {
        Ok(value) => value,
        Err(e) => {
            return Err(e);
        },
    };
    let green = match read_channel(tokens, Channel::Green) {
        Ok(value) => value,
        Err(e) => {
            return Err(e);
        },
    };
    let blue = match read_channel(tokens, Channel::Blue) {
        Ok(value) => value,
        Err(e) => {
            return Err(e);
        },
    };
    Ok(ColorCommand { red, green, blue })
}

/// Resolves the hardware variant from the variant flag.
pub fn select_variant(mini: Option<bool>) -> (variant: Variant)
    ensures
        variant == selected_variant(mini),
{
    match mini {
        Some(true) => Variant::Mini,
        _ => Variant::Standard,
    }
}

/// Resolves the whole start from the command line.
pub fn plan_startup(tokens: &Vec<String>, mini: Option<bool>) -> (plan: Result<
    StartupPlan,
    ConfigError,
>)
    ensures
        plan == startup_plan(texts(tokens@), mini),
{
    match resolve_startup_color(tokens) {
        Ok(color) => Ok(StartupPlan { variant: select_variant(mini), color }),
        Err(e) => Err(e),
    }
}

impl StartupPlan {
    /// The first render call: the start colour, on the selected variant.
    pub open spec fn spec_initial_render(&self) -> RenderCall {
        RenderCall { variant: self.variant, color: self.color }
    }

    #[verifier::when_used_as_spec(spec_initial_render)]
    pub fn initial_render(&self) -> (call: RenderCall)
        ensures
            call == self.spec_initial_render(),
    {
        RenderCall { variant: self.variant, color: self.color }
    }
}

/// A channel that has no argument starts at its default, whatever the
/// arguments before it hold.
pub proof fn lemma_missing_channel_takes_default(tokens: Seq<Seq<char>>, channel: Channel)
    requires
        tokens.len() <= channel_position(channel),
    ensures
        channel_argument(tokens, channel) == Ok::<i32, ConfigError>(default_channel(channel)),
        startup_color(tokens) matches Ok(color) ==> color.spec_channel(channel) == default_channel(
            channel,
        ),
{
}

/// Without arguments the light starts in the default colour.
pub proof fn lemma_no_arguments_default_color(tokens: Seq<Seq<char>>)
    requires
        tokens.len() == 0,
    ensures
        startup_color(tokens) == Ok::<ColorCommand, ConfigError>(
            ColorCommand::spec_default_color(),
        ),
        startup_color(tokens) == Ok::<ColorCommand, ConfigError>(
            ColorCommand { red: 39, green: 103, blue: 245 },
        ),
{
}

/// Three channel values written out in decimal are read back as they are,
/// whatever arguments follow them.
pub proof fn lemma_written_color_is_read(red: i32, green: i32, blue: i32, rest: Seq<Seq<char>>)
    ensures
        startup_color(
            seq![decimal_text(red as int), decimal_text(green as int), decimal_text(blue as int)]
                + rest,
        ) == Ok::<ColorCommand, ConfigError>(ColorCommand { red, green, blue }),
{
    lemma_decimal_text_value(red as int);
    lemma_decimal_text_value(green as int);
    lemma_decimal_text_value(blue as int);
}

/// The variant is the mini matrix exactly when the flag is given and set.
pub proof fn lemma_variant_follows_flag(tokens: Seq<Seq<char>>, mini: Option<bool>)
    ensures
        startup_plan(tokens, mini) matches Ok(plan) ==> (plan.variant == Variant::Mini <==> mini
            == Some(true)),
        startup_plan(tokens, mini) matches Ok(plan) ==> plan.spec_initial_render().variant
            == plan.variant,
{
}

} // verus!
