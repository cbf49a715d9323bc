//! The light state document, and the colour command it asks for.
//!
//! The document is written by other peers. It holds the three channels of the
//! light as fractional intensities under `red`, `green` and `blue`, and a
//! switch under `isOff`. A snapshot in which one of the four cannot be read
//! breaks the agreement between the peers, and nothing is rendered from it.

use vstd::prelude::*;
use crate::color::ColorCommand;
use crate::intensity::Intensity;

verus! {

/// One of the four fields of the light state document.
#[derive(Clone, Copy, Debug, PartialEq, Eq, Structural)]
pub enum Field {
    Red,
    Green,
    Blue,
    IsOff,
}

/// Why a snapshot of the document cannot be rendered.
#[derive(Clone, Copy, Debug, PartialEq, Eq, Structural)]
pub enum DocumentError {
    /// The field is absent, or holds a value of another type.
    MissingField(Field),
}

/// One snapshot of the light state document: each field as far as it could be
/// read.
#[derive(Clone, Copy, Debug, PartialEq, Eq, Structural)]
pub struct LightDocument {
    pub red: Option<Intensity>,
    pub green: Option<Intensity>,
    pub blue: Option<Intensity>,
    pub is_off: Option<bool>,
}

impl LightDocument {
    /// The first field that could not be read, in the order `red`, `green`,
    /// `blue`, `isOff`.
    pub open spec fn first_missing(self) -> Option<Field> {
        if self.red is None {
            Some(Field::Red)
        } else if self.green is None {
            Some(Field::Green)
        } else if self.blue is None {
            Some(Field::Blue)
        } else if self.is_off is None {
            Some(Field::IsOff)
        } else {
            None
        }
    }

    /// Whether all four fields could be read.
    pub open spec fn is_complete(self) -> bool {
        self.first_missing() is None
    }

    /// The colour that the three channels give, each cut down to a whole
    /// number. The switch is not looked at.
    pub open spec fn channels(self) -> ColorCommand
        recommends
            self.is_complete(),
    {
        ColorCommand {
            red: self.red->0.truncated() as i32,
            green: self.green->0.truncated() as i32,
            blue: self.blue->0.truncated() as i32,
        }
    }

    /// The colour command that the snapshot asks for: darkness when the light
    /// is switched off, the colour of its channels otherwise. A snapshot with
    /// a field missing asks for none, also when it is switched off.
    pub open spec fn command(self) -> Result<ColorCommand, DocumentError> {
        match self.first_missing() {
            Some(field) => Err(DocumentError::MissingField(field)),
            None => if self.is_off == Some(true) {
                Ok(ColorCommand::spec_off())
            } else {
                Ok(self.channels())
            },
        }
    }

    /// A snapshot in which all four fields were read.
    pub fn complete(red: Intensity, green: Intensity, blue: Intensity, is_off: bool) -> (document:
        LightDocument)
        ensures
            document == (LightDocument {
                red: Some(red),
                green: Some(green),
                blue: Some(blue),
                is_off: Some(is_off),
            }),
            document.is_complete(),
    {
        LightDocument { red: Some(red), green: Some(green), blue: Some(blue), is_off: Some(is_off) }
    }

    /// Derives the colour command that the snapshot asks for.
    pub fn color_command(&self) -> (command: Result<ColorCommand, DocumentError>)
        ensures
            command == self.command(),
    {
        let red = match self.red {
            Some(intensity) => intensity,
            None => {
                return Err(DocumentError::MissingField(Field::Red));
            },
        };
        let green = match self.green {
            Some(intensity) => intensity,
            None => {
                return Err(DocumentError::MissingField(Field::Green));
            },
        };
        let blue = match self.blue {
            Some(intensity) => intensity,
            None => {
                return Err(DocumentError::MissingField(Field::Blue));
            },
        };
        let is_off = match self.is_off {
            Some(flag) => flag,
            None => {
                return Err(DocumentError::MissingField(Field::IsOff));
            },
        };
        if is_off {
            Ok(ColorCommand::off())
        } else {
            Ok(ColorCommand { red: red.truncate(), green: green.truncate(), blue: blue.truncate() })
        }
    }

    /// A snapshot that is switched off asks for darkness, whatever its
    /// channels hold.
    pub proof fn lemma_off_is_dark(self)
        requires
            self.is_complete(),
            self.is_off == Some(true),
        ensures
            self.command() == Ok::<ColorCommand, DocumentError>(
                ColorCommand { red: 0, green: 0, blue: 0 },
            ),
    {
    }

    /// A snapshot that is switched on asks for the colour of its channels,
    /// each the truncated value of its intensity.
    pub proof fn lemma_on_shows_channels(self)
        requires
            self.is_complete(),
            self.is_off == Some(false),
        ensures
            self.command() matches Ok(color) && color.red == self.red->0.truncated() && color.green
                == self.green->0.truncated() && color.blue == self.blue->0.truncated(),
    {
        self.red->0.lemma_truncated_fits();
        self.green->0.lemma_truncated_fits();
        self.blue->0.lemma_truncated_fits();
    }
}

} // verus!
