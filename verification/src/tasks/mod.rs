//! The three tasks of the device, each as a transition function that its
//! runner calls between two waits.

pub mod button;
pub mod led;
pub mod wifi;
