use vstd::prelude::*;

verus! {

/// A 64-bit identifier, as produced by hashing a name.
#[derive(Clone, Copy, Debug, PartialEq, Eq, Hash, Structural)]
pub struct LiveId(pub u64);

/// The identifier of the name `pow`.
pub const LIVE_ID_POW: u64 = 0xeffb1eff7cf1a00b;

/// The identifier of the name `blend`.
pub const LIVE_ID_BLEND: u64 = 0x92fca944a2207d9b;

/// The identifier of the name `mix`.
pub const LIVE_ID_MIX: u64 = 0xd72bae6dfb934015;

/// The identifier of the name `hsvmod`.
pub const LIVE_ID_HSVMOD: u64 = 0x934086f1265d7b24;

/// The identifier of the name `value`, the field that holds a keyframe's value.
pub const LIVE_ID_VALUE: u64 = 0xaaf96267075cbbb7;

} // verus!
