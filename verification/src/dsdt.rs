//! The Differentiated System Description Table.

use vstd::prelude::*;

use crate::tables::SdtHeader;

verus! {

/// Only the table header is modelled: the trailing definition block is AML
/// byte code, which this crate does not interpret.
#[derive(Clone, Copy, Debug)]
pub struct Dsdt {
    pub header: SdtHeader,
}

} // verus!
