//! The Secondary System Description Table.

use vstd::prelude::*;

use crate::tables::SdtHeader;

verus! {

/// Only the table header is modelled: the trailing definition block is AML
/// byte code, which this crate does not interpret.
#[allow(non_camel_case_types)]
#[derive(Clone, Copy, Debug)]
pub struct ssdt {
    pub header: SdtHeader,
}

} // verus!
