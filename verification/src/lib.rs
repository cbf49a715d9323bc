//! Decision logic of a mood light that phones control over a peer-to-peer
//! document store.
//!
//! The crate holds no input or output. A program around it reads the command
//! line, drives the LED matrix and talks to the sync engine; what it has to
//! decide on the way is decided here, and every function states what it
//! returns:
//!
//! * [`decimal`]: reading a colour channel from the text of an argument;
//! * [`startup`]: the colour and the hardware variant the light starts with;
//! * [`intensity`]: cutting a fractional intensity down to a whole channel value;
//! * [`document`]: the colour command that a light state document asks for;
//! * [`observer`]: the render loop, latest snapshot first;
//! * [`lifecycle`]: the order of the startup steps and how the process ends;
//! * [`identity`]: the fixed names all peers agree on.

pub mod color;
pub mod decimal;
pub mod startup;
pub mod intensity;
pub mod document;
pub mod observer;
pub mod lifecycle;
pub mod identity;
