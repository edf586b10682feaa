//! Failures the interface layer can report.
use vstd::prelude::*;

verus! {

/// What went wrong while drawing: an output failure or a formatting failure.
#[derive(Debug, Clone, Copy, PartialEq, Eq, Structural)]
pub enum Error {
    Io,
    Fmt,
}

} // verus!
