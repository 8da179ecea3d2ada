//! Decoding and re-encoding of four fixed-layout Indian registration numbers:
//! CIN, PAN, GSTIN and Udyam.

pub mod cin;
pub mod gstin;
pub mod pan;
pub mod udyam;
pub mod utils;

pub use cin::CinMeta;
pub use gstin::GstinMeta;
pub use pan::PanMeta;
pub use udyam::UdyamMeta;
pub use utils::State;

use vstd::prelude::*;
use cin::CinError;
use gstin::GstinError;
use pan::PanError;
use udyam::UdyamError;

verus! {

/// Why an identifier was refused, by the kind of identifier.
#[derive(Debug, Clone, Copy, PartialEq, Eq, Structural)]
pub enum ValidationError {
    Cin(CinError),
    Pan(PanError),
    Gstin(GstinError),
    Udyam(UdyamError),
}

} // verus!
