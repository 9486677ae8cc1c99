//! The decision logic of an OpenXR input backend.
//!
//! Everything here works on plain values: what the runtime reported is handed in,
//! what the pointers hold afterwards is computed here and stated in contracts.

pub mod bare_hand_laws;
pub mod click;
pub mod click_laws;
pub mod device_laws;
pub mod devices;
pub mod float_bits;
pub mod frame_laws;
pub mod hand_source;
pub mod hand_tracking;
pub mod input_source;
pub mod joints;
pub mod location;
pub mod moment;
pub mod names;
pub mod pointer;
pub mod pointer_laws;
pub mod presses;
pub mod profile_laws;
pub mod profiles;
pub mod turn_laws;
pub mod value_laws;
