//! Bytes of random UUIDs, and where they come from.

use crate::uuid_gen::is_version;
use vstd::prelude::*;

verus! {

/// Whether bytes are ones that a draw of a random UUID can give. Only a draw shows it.
pub closed spec fn can_be_drawn(bytes: Seq<u8>) -> bool {
    is_version(bytes, 4)
}

/// What is drawn is a random UUID.
pub proof fn law_drawn_bytes_are_random_uuids(bytes: Seq<u8>)
    requires
        can_be_drawn(bytes),
    ensures
        is_version(bytes, 4),
{
}

} // verus!
