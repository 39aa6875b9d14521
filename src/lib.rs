//! A simulated soil moisture sensor: its control state machine, the text of
//! its status messages, and the coloring of the flower it displays.

pub mod drift;
pub mod flower;
pub mod lemmas;
pub mod message;
pub mod sensor;
