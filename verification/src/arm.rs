//! The translator for ARM: whole blocks, lifted against a decoder.

use vstd::prelude::*;
use vstd::slice::slice_subrange;
use crate::block::{
    lemma_run_push,
    lemma_step,
    reach,
    run,
    BlockState,
    BlockTranslationResult,
    Progress,
    Step,
    StepView,
};
use crate::error::Error;
use crate::instruction::DecodeOutcome;

verus! {

/// The state in which the translation of `bytes` at `address` begins. Bytes
/// that would lie past the end of the address space are left out of the
/// block.
pub open spec fn start(address: u64, bytes: Seq<u8>) -> Progress {
    Progress::initial(address, reach(address, bytes.len()))
}

/// Whether `outcome` is something `decoder` may answer when asked in the state
/// `progress` of a translation of `bytes`: it is then handed the bytes of the
/// block not yet decoded, and the address of the cursor.
pub open spec fn answers<D: Fn(&[u8], u64) -> DecodeOutcome>(
    decoder: D,
    bytes: Seq<u8>,
    progress: Progress,
    outcome: DecodeOutcome,
) -> bool {
    exists|window: &[u8]|
        window@ == bytes.subrange(progress.offset as int, progress.limit as int)
            && #[trigger] decoder.ensures((window, progress.cursor() as u64), outcome)
}

/// Whether `trace` lists, in order, answers of `decoder` to the questions a
/// translation of `bytes` at `address` puts to it: each answer is to the
/// question asked in the state the answers before it lead to.
pub open spec fn transcript<D: Fn(&[u8], u64) -> DecodeOutcome>(
    decoder: D,
    bytes: Seq<u8>,
    address: u64,
    trace: Seq<DecodeOutcome>,
) -> bool {
    forall|i: int|
        0 <= i < trace.len() ==> match #[trigger] run(start(address, bytes), trace.take(i)) {
            StepView::Continue(progress) => answers(decoder, bytes, progress, trace[i]),
            _ => false,
        }
}

/// Whether `found` is what the translation of `bytes` at `address` comes to
/// after the answers of `trace`: the complete block, or the error that failed
/// it.
pub open spec fn concludes(
    address: u64,
    bytes: Seq<u8>,
    trace: Seq<DecodeOutcome>,
    found: Result<BlockTranslationResult, Error>,
) -> bool {
    match found {
        Ok(block) => run(start(address, bytes), trace) == StepView::Done(block@),
        Err(error) => run(start(address, bytes), trace) == StepView::Failed(error),
    }
}

/// A transcript stays one when an answer to the question now open is added.
pub proof fn lemma_transcript_push<D: Fn(&[u8], u64) -> DecodeOutcome>(
    decoder: D,
    bytes: Seq<u8>,
    address: u64,
    trace: Seq<DecodeOutcome>,
    progress: Progress,
    outcome: DecodeOutcome,
)
    requires
        transcript(decoder, bytes, address, trace),
        run(start(address, bytes), trace) == StepView::Continue(progress),
        answers(decoder, bytes, progress, outcome),
    ensures
        transcript(decoder, bytes, address, trace.push(outcome)),
{
    let longer = trace.push(outcome);
    assert forall|i: int| 0 <= i < longer.len() implies match #[trigger] run(
        start(address, bytes),
        longer.take(i),
    ) {
        StepView::Continue(reached) => answers(decoder, bytes, reached, longer[i]),
        _ => false,
    } by {
        if i < trace.len() {
            assert(longer.take(i) =~= trace.take(i));
            assert(longer[i] == trace[i]);
        } else {
            assert(longer.take(i) =~= trace);
        }
    }
}

/// The translator for ARM.
#[derive(Clone, Debug)]
pub struct Arm;

impl Arm {
    /// A translator. It keeps nothing from one block to the next.
    pub fn new() -> Arm {
        Arm
    }

    /// Lifts the block that starts at `address` and whose bytes are `bytes`.
    ///
    /// `decoder` is asked for one instruction at a time: it is handed the
    /// bytes not yet decoded and the address of the first of them. Its answers
    /// go through [`BlockState::step`] until the block is complete or fails.
    /// So the result is what [`run`] makes of the decoder's answers, whatever
    /// they were; and a complete block is well-formed.
    pub fn translate_block<D>(&self, bytes: &[u8], address: u64, decoder: D) -> (r: Result<
        BlockTranslationResult,
        Error,
    >) where D: Fn(&[u8], u64) -> DecodeOutcome
        requires
            forall|window: &[u8], at: u64| decoder.requires((window, at)),
        ensures
            exists|trace: Seq<DecodeOutcome>|
                transcript(decoder, bytes@, address, trace) && #[trigger] concludes(
                    address,
                    bytes@,
                    trace,
                    r,
                ),
            r matches Ok(block) ==> block@.well_formed() && block@.address == address,
    {
        let mut state = BlockState::new(address, bytes.len());
        let ghost mut trace: Seq<DecodeOutcome> = Seq::empty();
        loop
            invariant
                forall|window: &[u8], at: u64| decoder.requires((window, at)),
                state@.address == address,
                state@.limit == reach(address, bytes@.len()),
                state@.well_formed(),
                transcript(decoder, bytes@, address, trace),
                run(start(address, bytes@), trace) == StepView::Continue(state@),
            decreases state@.limit - state@.offset,
        {
            let window = slice_subrange(bytes, state.offset(), state.limit());
            let at = state.cursor();
            let outcome = decoder(window, at);
            proof {
                assert(decoder.ensures((window, state@.cursor() as u64), outcome));
                lemma_transcript_push(decoder, bytes@, address, trace, state@, outcome);
                lemma_run_push(start(address, bytes@), trace, outcome);
                lemma_step(state@, outcome);
                trace = trace.push(outcome);
            }
            match state.step(outcome) {
                Step::Continue(next) => {
                    state = next;
                },
                Step::Done(block) => {
                    assert(concludes(address, bytes@, trace, Ok(block)));
                    return Ok(block);
                },
                Step::Failed(error) => {
                    assert(concludes(address, bytes@, trace, Err(error)));
                    return Err(error);
                },
            }
        }
    }
}

} // verus!
