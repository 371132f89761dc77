//! Decisions of the tuner reader between two I/Q chunks. Retunes and gain
//! changes are applied only between reads, never in the middle of a buffer.

use vstd::prelude::*;
use crate::rtltcp::{apply_commands, RtlCommand, TunerSettings};

verus! {

/// Seconds to wait before reconnecting after the rtl_tcp link ends.
pub const RECONNECT_DELAY_SECS: u64 = 2;

/// The commands that follow a chunk: a pending retune first, then a pending
/// gain change.
pub open spec fn step_commands(retune_to: Option<u32>, new_gain: Option<u32>) -> Seq<RtlCommand> {
    (match retune_to {
        Some(hz) => seq![RtlCommand::SetFrequency(hz)],
        None => Seq::empty(),
    }) + (match new_gain {
        Some(g) => seq![RtlCommand::SetGain(g)],
        None => Seq::empty(),
    })
}

/// The commands that apply the requests that arrived while the last chunk
/// was read: a new centre frequency (`retune_to`), confirmed to listeners and
/// counted as a retune once sent, and a new gain (`new_gain`).
pub fn after_chunk(retune_to: Option<u32>, new_gain: Option<u32>) -> (r: Vec<RtlCommand>)
    ensures
        r@ == step_commands(retune_to, new_gain),
{
    let mut commands: Vec<RtlCommand> = Vec::new();
    if let Some(hz) = retune_to {
        commands.push(RtlCommand::SetFrequency(hz));
    }
    if let Some(g) = new_gain {
        commands.push(RtlCommand::SetGain(g));
    }
    assert(commands@ =~= step_commands(retune_to, new_gain));
    commands
}

/// Number of requests that are pending.
pub open spec fn pending_count(retune_to: Option<u32>, new_gain: Option<u32>) -> nat {
    (if retune_to is Some { 1nat } else { 0nat }) + (if new_gain is Some { 1nat } else { 0nat })
}

/// Every pending request takes effect, whatever the tuner's settings were:
/// after the commands that follow a chunk the tuner is at the requested
/// centre frequency and gain (the previous ones where nothing was requested),
/// with every other setting unchanged; one command is sent per pending
/// request, and a pending gain change is the last one sent.
pub proof fn law_after_chunk_applies_requests(
    retune_to: Option<u32>,
    new_gain: Option<u32>,
    before: TunerSettings,
)
    ensures
        apply_commands(before, step_commands(retune_to, new_gain)) == (TunerSettings {
            center_hz: match retune_to {
                Some(hz) => hz,
                None => before.center_hz,
            },
            gain_tenths_db: match new_gain {
                Some(g) => g,
                None => before.gain_tenths_db,
            },
            ..before
        }),
        step_commands(retune_to, new_gain).len() == pending_count(retune_to, new_gain),
        new_gain matches Some(g) ==> step_commands(retune_to, new_gain).last()
            == RtlCommand::SetGain(g),
{
    let q = step_commands(retune_to, new_gain);
    reveal_with_fuel(apply_commands, 3);
    if q.len() == 2 {
        assert(q.drop_last().drop_last() =~= Seq::<RtlCommand>::empty());
    } else if q.len() == 1 {
        assert(q.drop_last() =~= Seq::<RtlCommand>::empty());
    }
}

} // verus!
