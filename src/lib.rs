//! Hardware-key vault: the sealed-envelope wire format, its text form, and the
//! decisions that surround a hardware-resident key (create, probe, delete,
//! agree) and the seal / unseal protocol built on it.

use vstd::prelude::*;

pub mod browser;
pub mod codec;
pub mod envelope;
pub mod error;
pub mod point;
pub mod provider;
pub mod text;

verus! {

} // verus!
