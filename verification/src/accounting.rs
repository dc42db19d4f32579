use vstd::prelude::*;
use crate::convert::{Sample, SampleKind};
use crate::encoder::{
    delivered, fresh_encoder, frames_of, header_of, slot_after, slot_taken_back, written_of,
    ContainerEncoder, LockAttempt,
};
use crate::format::{stream_format_of, DeviceConfig};

verus! {

/// One call of the device's callback: how the lock attempt ended, the
/// buffer that was delivered, and how many of the samples handed on the file
/// then refused.
pub struct Callback {
    pub lock: LockAttempt,
    pub input: Seq<Sample>,
    pub refused: nat,
}

/// Whether every sample of a buffer is of the representation `kind`.
pub open spec fn all_of_kind(input: Seq<Sample>, kind: SampleKind) -> bool {
    forall|i: int| 0 <= i < input.len() ==> (#[trigger] input[i]).spec_kind() == kind
}

/// The encoder slot after a run of callbacks: each buffer is offered, and
/// what the file refused of it is taken back.
pub open spec fn slot_after_all(slot: Option<ContainerEncoder>, calls: Seq<Callback>) -> Option<
    ContainerEncoder,
>
    decreases calls.len(),
{
    if calls.len() == 0 {
        slot
    } else {
        slot_taken_back(
            slot_after(
                slot_after_all(slot, calls.drop_last()),
                calls.last().lock,
                calls.last().input,
            ),
            calls.last().refused,
        )
    }
}

/// How many samples a run of callbacks handed on to the file.
pub open spec fn written_count(slot: Option<ContainerEncoder>, calls: Seq<Callback>) -> nat
    decreases calls.len(),
{
    if calls.len() == 0 {
        0
    } else {
        written_count(slot, calls.drop_last()) + written_of(
            slot_after_all(slot, calls.drop_last()),
            calls.last().lock,
            calls.last().input,
        ).len()
    }
}

/// How many samples the file refused over a run of callbacks.
pub open spec fn refused_count(calls: Seq<Callback>) -> nat
    decreases calls.len(),
{
    if calls.len() == 0 {
        0
    } else {
        refused_count(calls.drop_last()) + calls.last().refused
    }
}

/// How many samples a run of callbacks delivered, dropped or not.
pub open spec fn delivered_count(calls: Seq<Callback>) -> nat
    decreases calls.len(),
{
    if calls.len() == 0 {
        0
    } else {
        delivered_count(calls.drop_last()) + calls.last().input.len()
    }
}

/// Whether a run of callbacks can happen: in each, the file refuses no more
/// samples than were handed on to it.
pub open spec fn well_reported(slot: Option<ContainerEncoder>, calls: Seq<Callback>) -> bool
    decreases calls.len(),
{
    if calls.len() == 0 {
        true
    } else {
        &&& well_reported(slot, calls.drop_last())
        &&& calls.last().refused <= written_of(
            slot_after_all(slot, calls.drop_last()),
            calls.last().lock,
            calls.last().input,
        ).len()
    }
}

/// Whether a run of callbacks loses nothing to an encoder of representation
/// `kind`: no lock attempt is contended, every sample is of that
/// representation, and the file refuses none.
pub open spec fn undisturbed(calls: Seq<Callback>, kind: SampleKind) -> bool {
    forall|i: int|
        0 <= i < calls.len() ==> (#[trigger] calls[i]).lock == LockAttempt::Acquired && all_of_kind(
            calls[i].input,
            kind,
        ) && calls[i].refused == 0
}

/// A buffer changes only the count of an encoder, and raises it by exactly
/// the number of samples handed on, which are no more than were delivered.
pub proof fn delivery_counts_what_is_written(encoder: ContainerEncoder, input: Seq<Sample>)
    ensures
        delivered(encoder, input).encoder.format == encoder.format,
        delivered(encoder, input).encoder.kind == encoder.kind,
        delivered(encoder, input).encoder.samples == encoder.samples + delivered(
            encoder,
            input,
        ).written.len(),
        delivered(encoder, input).written.len() <= input.len(),
        all_of_kind(delivered(encoder, input).written, encoder.kind),
    decreases input.len(),
{
    if input.len() > 0 {
        delivery_counts_what_is_written(encoder, input.drop_last());
    }
}

/// A buffer of the encoder's own representation is handed on whole and
/// unchanged, as long as the count has room for it.
pub proof fn delivery_keeps_every_sample(encoder: ContainerEncoder, input: Seq<Sample>)
    requires
        all_of_kind(input, encoder.kind),
        encoder.samples + input.len() <= u64::MAX,
    ensures
        delivered(encoder, input).written == input,
        delivered(encoder, input).encoder.samples == encoder.samples + input.len(),
    decreases input.len(),
{
    if input.len() > 0 {
        let front = input.drop_last();
        assert(all_of_kind(front, encoder.kind)) by {
            assert forall|i: int| 0 <= i < front.len() implies (#[trigger] front[i]).spec_kind()
                == encoder.kind by {
                assert(front[i] == input[i]);
            }
        }
        delivery_keeps_every_sample(encoder, front);
        delivery_counts_what_is_written(encoder, front);
        assert(input.last() == input[input.len() - 1]);
        assert(front.push(input.last()) =~= input);
    } else {
        assert(input =~= Seq::<Sample>::empty());
    }
}

/// A callback that finds the lock contended, or the encoder gone, changes
/// nothing and hands nothing on.
pub proof fn dropped_buffer_changes_nothing(
    slot: Option<ContainerEncoder>,
    lock: LockAttempt,
    input: Seq<Sample>,
)
    requires
        lock == LockAttempt::Contended || slot.is_none(),
    ensures
        slot_after(slot, lock, input) == slot,
        written_of(slot, lock, input).len() == 0,
{
}

/// From the start of a recording to its end, whatever the callbacks were
/// and whatever the file refused: the header declares the format of the
/// device and exactly as many samples as were handed on to the file and not
/// refused by it, never more than were delivered, and no more whole frames
/// than those samples make.
pub proof fn header_counts_what_was_written(config: DeviceConfig, calls: Seq<Callback>)
    requires
        config.sample_format.spec_is_supported(),
        well_reported(Some(fresh_encoder(config)), calls),
    ensures
        slot_after_all(Some(fresh_encoder(config)), calls).is_some(),
        slot_after_all(Some(fresh_encoder(config)), calls).unwrap().kind == fresh_encoder(
            config,
        ).kind,
        header_of(slot_after_all(Some(fresh_encoder(config)), calls).unwrap()).format
            == stream_format_of(config),
        refused_count(calls) <= written_count(Some(fresh_encoder(config)), calls),
        header_of(slot_after_all(Some(fresh_encoder(config)), calls).unwrap()).samples
            == written_count(Some(fresh_encoder(config)), calls) - refused_count(calls),
        written_count(Some(fresh_encoder(config)), calls) <= delivered_count(calls),
        header_of(slot_after_all(Some(fresh_encoder(config)), calls).unwrap()).frames
            * config.channels <= written_count(Some(fresh_encoder(config)), calls)
            - refused_count(calls),
    decreases calls.len(),
{
    let start = Some(fresh_encoder(config));
    if calls.len() > 0 {
        header_counts_what_was_written(config, calls.drop_last());
        let before = slot_after_all(start, calls.drop_last()).unwrap();
        delivery_counts_what_is_written(before, calls.last().input);
    }
    let end = slot_after_all(start, calls).unwrap();
    frames_fit(end.samples, config.channels);
}

/// Where no callback is disturbed and the count has room, the header
/// declares every sample that was delivered.
pub proof fn undisturbed_recording_loses_nothing(config: DeviceConfig, calls: Seq<Callback>)
    requires
        config.sample_format.spec_is_supported(),
        undisturbed(calls, fresh_encoder(config).kind),
        delivered_count(calls) <= u64::MAX,
    ensures
        well_reported(Some(fresh_encoder(config)), calls),
        refused_count(calls) == 0,
        slot_after_all(Some(fresh_encoder(config)), calls).is_some(),
        header_of(slot_after_all(Some(fresh_encoder(config)), calls).unwrap()).samples
            == delivered_count(calls),
        header_of(slot_after_all(Some(fresh_encoder(config)), calls).unwrap()).frames
            == frames_of(delivered_count(calls) as u64, config.channels),
    decreases calls.len(),
{
    let start = Some(fresh_encoder(config));
    if calls.len() > 0 {
        let front = calls.drop_last();
        assert(undisturbed(front, fresh_encoder(config).kind)) by {
            assert forall|i: int| 0 <= i < front.len() implies (#[trigger] front[i]).lock
                == LockAttempt::Acquired && all_of_kind(front[i].input, fresh_encoder(config).kind)
                && front[i].refused == 0 by {
                assert(front[i] == calls[i]);
            }
        }
        undisturbed_recording_loses_nothing(config, front);
        header_counts_what_was_written(config, front);
        assert(calls.last() == calls[calls.len() - 1]);
        header_counts_what_was_written(config, calls);
        let before = slot_after_all(start, front).unwrap();
        delivery_keeps_every_sample(before, calls.last().input);
    }
}

/// Whole frames never hold more samples than there are.
pub proof fn frames_fit(samples: u64, channels: u16)
    ensures
        frames_of(samples, channels) * channels <= samples,
{
    if channels > 0 {
        let s: int = samples as int;
        let c: int = channels as int;
        assert((s / c) * c <= s) by (nonlinear_arith)
            requires
                c > 0,
                s >= 0,
        ;
        assert(0 <= s / c <= s) by (nonlinear_arith)
            requires
                c > 0,
                s >= 0,
        ;
    }
}

} // verus!
