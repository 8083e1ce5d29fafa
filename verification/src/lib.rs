//! Evidence plane of the GovSec governance spine: bounded, hash-linked,
//! Ed25519-signed execution evidence, with verified chain verification and
//! signed checkpoints.

pub mod clock;
pub mod crypto;
pub mod encoding;
pub mod evidence;
pub mod governed;
pub mod govmem;
pub mod sink;
pub mod system;
