//! The magic command and the exact-match test applied to every packet.

use vstd::prelude::*;

verus! {

/// Number of bytes of the magic command.
pub const MAGIC_COMMAND_LEN: usize = 10;

/// The one recognized command: the bytes of `bootloader`, no terminator.
/// A packet triggers the reboot only when its whole payload equals this
/// sequence; prefixes, supersets and partial deliveries never match.
pub open spec fn magic_command() -> Seq<u8> {
    seq![98u8, 111u8, 111u8, 116u8, 108u8, 111u8, 97u8, 100u8, 101u8, 114u8]
}

pub proof fn lemma_magic_command_len()
    ensures
        magic_command().len() == MAGIC_COMMAND_LEN,
{
}

/// Exact-length, exact-byte comparison of one packet payload against the
/// magic command. A zero-length payload is a valid read and never matches.
pub fn is_magic_packet(data: &[u8]) -> (r: bool)
    ensures
        r <==> data@ == magic_command(),
{
    let pattern: [u8; 10] = [98, 111, 111, 116, 108, 111, 97, 100, 101, 114];
    if data.len() != MAGIC_COMMAND_LEN {
        return false;
    }
    let mut i: usize = 0;
    while i < MAGIC_COMMAND_LEN
        invariant
            i <= MAGIC_COMMAND_LEN,
            data@.len() == MAGIC_COMMAND_LEN,
            pattern@ == magic_command(),
            forall|j: int| 0 <= j < i ==> data@[j] == magic_command()[j],
        decreases MAGIC_COMMAND_LEN - i,
    {
        if data[i] != pattern[i] {
            return false;
        }
        i += 1;
    }
    proof {
        assert(data@ =~= magic_command());
    }
    true
}

} // verus!
