//! Parameters of the Ethernet echo server: reflect received packets back to
//! their sender with source and destination swapped.

use vstd::prelude::*;

verus! {

pub struct ReflectorArgs {}

} // verus!
