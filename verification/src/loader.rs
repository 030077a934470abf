//! Initial processor state for the firmware images that a virtual machine
//! boots from.

pub mod importer;
pub mod pcat;
pub mod seabios;
