use vstd::prelude::*;

verus! {

/// A card packed into one 32-bit word:
///
/// ```txt
/// +--------+--------+--------+--------+
/// |xxxbbbbb|bbbbbbbb|cdhsrrrr|xxpppppp|
/// +--------+--------+--------+--------+
/// ```
pub type CactusKevCard = u32;

} // verus!
