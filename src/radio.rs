use crate::control::RogCore;
use vstd::prelude::*;
use vstd::string::StringSliceAdditionalSpecFns;

verus! {

/// The radio-control command that the airplane-mode toggle issues.
#[derive(Clone, Copy, Debug, PartialEq, Eq, Structural)]
pub enum RadioCommand {
    /// `rfkill unblock all`
    UnblockAll,
    /// `rfkill block all`
    BlockAll,
}

impl RadioCommand {
    /// The verb of the `rfkill` command line, which ends in `all`.
    pub fn verb(self) -> (r: &'static str)
        ensures
            r@ == match self {
                RadioCommand::UnblockAll => "unblock"@,
                RadioCommand::BlockAll => "block"@,
            },
    {
        match self {
            RadioCommand::UnblockAll => "unblock",
            RadioCommand::BlockAll => "block",
        }
    }
}

/// The bytes of `": yes"`, which a radio listing shows beside a blocked
/// radio.
pub open spec fn soft_block_marker() -> Seq<u8> {
    seq![58u8, 32u8, 121u8, 101u8, 115u8]
}

pub open spec fn marker_at(s: Seq<u8>, i: int) -> bool {
    &&& 0 <= i
    &&& i + 5 <= s.len()
    &&& s.subrange(i, i + 5) == soft_block_marker()
}

/// The listing shows a blocked radio somewhere.
pub open spec fn shows_block(s: Seq<u8>) -> bool {
    exists|i: int| marker_at(s, i)
}

/// The command for a radio listing: none where the listing could not be
/// had, unblock where it shows a blocked radio, block otherwise.
pub open spec fn radio_command_for(listing: Option<Seq<u8>>) -> Option<RadioCommand> {
    match listing {
        None => None,
        Some(s) => if shows_block(s) {
            Some(RadioCommand::UnblockAll)
        } else {
            Some(RadioCommand::BlockAll)
        },
    }
}

fn holds_marker(s: &[u8]) -> (r: bool)
    ensures
        r == shows_block(s@),
{
    let n = s.len();
    let mut i: usize = 0;
    while n - i >= 5
        invariant
            n == s@.len(),
            i <= n,
            forall|j: int| 0 <= j < i ==> !#[trigger] marker_at(s@, j),
        decreases n - i,
    {
        if s[i] == 58 && s[i + 1] == 32 && s[i + 2] == 121 && s[i + 3] == 101 && s[i + 4] == 115 {
            assert(s@.subrange(i as int, i + 5) =~= soft_block_marker());
            assert(marker_at(s@, i as int));
            return true;
        }
        assert(!marker_at(s@, i as int)) by {
            if marker_at(s@, i as int) {
                let w = s@.subrange(i as int, i + 5);
                assert(w[0] == s@[i as int]);
                assert(w[1] == s@[i + 1]);
                assert(w[2] == s@[i + 2]);
                assert(w[3] == s@[i + 3]);
                assert(w[4] == s@[i + 4]);
            }
        }
        i = i + 1;
    }
    assert(forall|j: int| !marker_at(s@, j)) by {
        assert(forall|j: int| i <= j ==> !#[trigger] marker_at(s@, j));
    }
    false
}

impl RogCore {
    /// The command that toggles airplane mode, given the text that the radio
    /// listing printed, or `None` where the listing failed, exited non-zero
    /// or printed no text: then nothing is to be done. A listing that shows
    /// any blocked radio asks to unblock all, one that shows none to block
    /// all.
    pub fn toggle_airplane_mode(&self, listing: Option<&str>) -> (r: Option<RadioCommand>)
        ensures
            r == radio_command_for(
                match listing {
                    Some(s) => Some(s.spec_bytes()),
                    None => None,
                },
            ),
    {
        match listing {
            Some(s) => if holds_marker(s.as_bytes()) {
                Some(RadioCommand::UnblockAll)
            } else {
                Some(RadioCommand::BlockAll)
            },
            None => None,
        }
    }
}

/// The toggle issues an unblock where the listing shows a blocked radio, a
/// block where it shows none, and nothing where no listing came.
pub proof fn lemma_toggle_follows_listing(s: Seq<u8>, i: int)
    ensures
        marker_at(s, i) ==> radio_command_for(Some(s)) == Some(RadioCommand::UnblockAll),
        (forall|j: int| !marker_at(s, j)) ==> radio_command_for(Some(s)) == Some(
            RadioCommand::BlockAll,
        ),
        radio_command_for(None) == None::<RadioCommand>,
{
}

} // verus!
