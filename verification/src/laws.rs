//! What holds of every translation, proved from the definition of a run.
//!
//! A translation puts questions to a decoder and takes a step for each
//! answer. The laws below speak of the list of answers, the trace, and of the
//! block that [`run`] makes of it. They hold whatever the decoder answered.
//!
//! [`Arm::translate_block`] promises a transcript of the decoder that leads
//! to its result. A transcript is an exact trace from a well-formed state
//! ([`lemma_transcript_is_exact`]), which is what the laws ask for.
//!
//! [`Arm::translate_block`]: crate::arm::Arm::translate_block

use vstd::prelude::*;
use vstd::arithmetic::power2::lemma2_to64;
use crate::arm::{start, transcript};
use crate::block::{lemma_run_push, lemma_step, run, Progress, ResultView, StepView};
use crate::control::{immediate_address, resolution, ControlTransfer};
use crate::il::{Expression, State};
use crate::instruction::DecodeOutcome;

verus! {

/// The number of bytes of the instruction in `outcome`; none where the
/// decoder found no instruction.
pub open spec fn decoded_size(outcome: DecodeOutcome) -> nat {
    match outcome {
        DecodeOutcome::Instruction(instruction) => instruction.size as nat,
        _ => 0,
    }
}

/// The sum of the sizes of the instructions in `trace`.
pub open spec fn total_size(trace: Seq<DecodeOutcome>) -> nat
    decreases trace.len(),
{
    if trace.len() == 0 {
        0
    } else {
        total_size(trace.drop_last()) + decoded_size(trace.last())
    }
}

/// Whether every answer of `trace` was asked for: before each of them the
/// translation was still going on.
pub open spec fn exact(progress: Progress, trace: Seq<DecodeOutcome>) -> bool {
    forall|i: int| 0 <= i < trace.len() ==> #[trigger] run(progress, trace.take(i)) is Continue
}

/// Whether a decoder gives the same answer whenever it is asked the same
/// question.
pub open spec fn deterministic<D: Fn(&[u8], u64) -> DecodeOutcome>(decoder: D) -> bool {
    forall|first: &[u8], second: &[u8], at: u64, one: DecodeOutcome, other: DecodeOutcome|
        first@ == second@ && #[trigger] decoder.ensures((first, at), one)
            && #[trigger] decoder.ensures((second, at), other) ==> one == other
}

/// Every answer of a transcript was asked for.
pub proof fn lemma_transcript_is_exact<D: Fn(&[u8], u64) -> DecodeOutcome>(
    decoder: D,
    bytes: Seq<u8>,
    address: u64,
    trace: Seq<DecodeOutcome>,
)
    requires
        transcript(decoder, bytes, address, trace),
    ensures
        start(address, bytes).well_formed(),
        exact(start(address, bytes), trace),
{
}

/// A run from a well-formed state ends in a well-formed state or block, at
/// the same block address.
pub proof fn lemma_run_well_formed(progress: Progress, trace: Seq<DecodeOutcome>)
    requires
        progress.well_formed(),
    ensures
        match run(progress, trace) {
            StepView::Continue(reached) => {
                &&& reached.well_formed()
                &&& reached.address == progress.address
                &&& reached.limit == progress.limit
            },
            StepView::Done(block) => block.well_formed() && block.address == progress.address,
            StepView::Failed(_) => true,
        },
    decreases trace.len(),
{
    if trace.len() > 0 {
        lemma_run_well_formed(progress, trace.drop_last());
        match run(progress, trace.drop_last()) {
            StepView::Continue(reached) => {
                lemma_step(reached, trace.last());
            },
            _ => {},
        }
    }
}

/// While the lifting of a block goes on, every answer so far was an
/// instruction that joined the block, and the bytes decoded are those of
/// these instructions.
pub proof fn lemma_exact_run(address: u64, limit: nat, trace: Seq<DecodeOutcome>)
    requires
        Progress::initial(address, limit).well_formed(),
        run(Progress::initial(address, limit), trace) is Continue,
    ensures
        ({
            let reached = run(Progress::initial(address, limit), trace)->Continue_0;
            &&& reached.well_formed()
            &&& reached.address == address
            &&& reached.instructions.len() == trace.len()
            &&& reached.offset == total_size(trace)
            &&& forall|j: int|
                0 <= j < trace.len() ==> (#[trigger] trace[j]) is Instruction
                    && reached.instructions[j].0 == trace[j]->Instruction_0.address
            &&& trace.len() > 0 ==> trace.last() is Instruction && reached.offset
                == trace.last()->Instruction_0.end() - address
        }),
    decreases trace.len(),
{
    let start = Progress::initial(address, limit);
    lemma_run_well_formed(start, trace);
    if trace.len() > 0 {
        let before = trace.drop_last();
        lemma_exact_run(address, limit, before);
        let reached = run(start, trace)->Continue_0;
        assert forall|j: int| 0 <= j < trace.len() implies (#[trigger] trace[j]) is Instruction
            && reached.instructions[j].0 == trace[j]->Instruction_0.address by {
            if j < before.len() {
                assert(trace[j] == before[j]);
            }
        }
    }
}

/// Instruction addresses strictly increase, starting at the start of the
/// block: the first instruction of a complete block sits at the block's
/// address, and each one after it at a higher address than the one before.
/// Each graph is tied to the address of its instruction.
pub proof fn law_addresses_increase(address: u64, limit: nat, trace: Seq<DecodeOutcome>)
    requires
        Progress::initial(address, limit).well_formed(),
        run(Progress::initial(address, limit), trace) is Done,
    ensures
        ({
            let block = run(Progress::initial(address, limit), trace)->Done_0;
            &&& block.well_formed()
            &&& block.address == address
            &&& block.instructions.len() > 0 ==> block.instructions[0].0 == address
            &&& forall|i: int, j: int|
                0 <= i < j < block.instructions.len() ==> (#[trigger] block.instructions[i]).0 < (
                #[trigger] block.instructions[j]).0
            &&& forall|i: int|
                0 <= i < block.instructions.len() ==> (
                #[trigger] block.instructions[i]).1.address == Some(block.instructions[i].0)
        }),
{
    lemma_run_well_formed(Progress::initial(address, limit), trace);
}

/// The length of a complete block is the sum of the sizes of its
/// instructions; and where the block has an instruction, it is the distance
/// from the start of the block to the end of the last one.
///
/// The instructions of the block are the instructions of the trace, in order:
/// the trace holds nothing else but, at its end, the boundary that completed
/// the block, where one did.
pub proof fn law_length_is_sum_of_sizes(address: u64, limit: nat, trace: Seq<DecodeOutcome>)
    requires
        Progress::initial(address, limit).well_formed(),
        exact(Progress::initial(address, limit), trace),
        run(Progress::initial(address, limit), trace) is Done,
    ensures
        ({
            let block = run(Progress::initial(address, limit), trace)->Done_0;
            let count = block.instructions.len() as int;
            &&& block.length == total_size(trace)
            &&& trace.len() - 1 <= count <= trace.len()
            &&& forall|j: int|
                0 <= j < count ==> (#[trigger] trace[j]) is Instruction
                    && block.instructions[j].0 == trace[j]->Instruction_0.address
            &&& count >= 1 ==> trace[count - 1] is Instruction && block.length == trace[count
                - 1]->Instruction_0.end() - address
        }),
{
    let start = Progress::initial(address, limit);
    let before = trace.drop_last();
    assert(trace.take(trace.len() - 1) =~= before);
    lemma_exact_run(address, limit, before);
    let block = run(start, trace)->Done_0;
    assert forall|j: int| 0 <= j < block.instructions.len() implies (
    #[trigger] trace[j]) is Instruction && block.instructions[j].0
        == trace[j]->Instruction_0.address by {
        if j < before.len() {
            assert(trace[j] == before[j]);
        }
    }
}

/// The two guards of a block with two successors are complements: in every
/// machine state one of them evaluates to 1 and the other to 0.
pub proof fn law_guards_are_complementary(block: ResultView, state: State)
    requires
        block.well_formed(),
        block.successors.len() == 2,
    ensures
        block.successors[0].guard is Some,
        block.successors[1].guard is Some,
        ({
            let taken = block.successors[0].guard->Some_0.value(state);
            let other = block.successors[1].guard->Some_0.value(state);
            (taken == 1 && other == 0) || (taken == 0 && other == 1)
        }),
        block.successors[0].guard->Some_0.holds(state) != block.successors[1].guard->Some_0.holds(
            state,
        ),
{
    let guard = block.successors[0].guard->Some_0;
    lemma_negation_complements(guard, state);
}

/// A comparison evaluates to 0 or 1, and its negation to the other of the
/// two.
pub proof fn lemma_negation_complements(guard: Expression, state: State)
    requires
        guard.is_comparison(),
    ensures
        guard.value(state) == 0 || guard.value(state) == 1,
        guard.negated().value(state) == 1 - guard.value(state),
{
    lemma2_to64();
    let zero = Expression::Constant { value: 0, bits: 1 };
    assert(zero.value(state) == 0);
}

/// The successor of the taken branch comes before the one that falls
/// through: a block with two successors ends in a compare-and-branch
/// instruction, its first successor is the target of the branch under the
/// comparison, and its second is the address after the instruction under the
/// negated comparison.
pub proof fn law_taken_branch_comes_first(address: u64, limit: nat, trace: Seq<DecodeOutcome>)
    requires
        Progress::initial(address, limit).well_formed(),
        exact(Progress::initial(address, limit), trace),
        run(Progress::initial(address, limit), trace) is Done,
        run(Progress::initial(address, limit), trace)->Done_0.successors.len() == 2,
    ensures
        ({
            let block = run(Progress::initial(address, limit), trace)->Done_0;
            &&& trace.len() > 0
            &&& trace.last() matches DecodeOutcome::Instruction(branch)
            &&& resolution(branch) matches Ok(ControlTransfer::Conditional { target, guard })
            &&& block.successors[0].target == target
            &&& block.successors[0].guard == Some(guard)
            &&& target == immediate_address(branch.immediate_at(1)->Some_0)
            &&& block.successors[1].target == branch.end()
            &&& block.successors[1].guard == Some(guard.negated())
        }),
{
    let before = trace.drop_last();
    assert(trace.take(trace.len() - 1) =~= before);
    lemma_run_well_formed(Progress::initial(address, limit), before);
}

/// An unconditional direct branch ends its block: where the answer at
/// position `index` of the trace of a complete block is a `b` instruction, it
/// is the last answer, the last instruction of the block, and the block has
/// exactly one successor, the target of the branch, without a guard.
pub proof fn law_direct_branch_ends_block(
    address: u64,
    limit: nat,
    trace: Seq<DecodeOutcome>,
    index: int,
)
    requires
        Progress::initial(address, limit).well_formed(),
        exact(Progress::initial(address, limit), trace),
        run(Progress::initial(address, limit), trace) is Done,
        0 <= index < trace.len(),
        trace[index] matches DecodeOutcome::Instruction(branch) && branch.opcode is B,
    ensures
        ({
            let block = run(Progress::initial(address, limit), trace)->Done_0;
            let branch = trace[index]->Instruction_0;
            &&& index == trace.len() - 1
            &&& block.instructions.len() == index + 1
            &&& block.instructions[index].0 == branch.address
            &&& block.successors.len() == 1
            &&& block.successors[0].guard is None
            &&& block.successors[0].target == immediate_address(branch.immediate_at(0)->Some_0)
        }),
{
    let start = Progress::initial(address, limit);
    let prefix = trace.take(index);
    lemma_exact_run(address, limit, prefix);
    lemma_run_push(start, prefix, trace[index]);
    assert(prefix.push(trace[index]) =~= trace.take(index + 1));
    if index + 1 < trace.len() {
        // The branch completes the block or fails it, so no answer after it
        // can have been asked for.
        assert(run(start, trace.take(index + 1)) is Continue);
    } else {
        assert(trace.take(index + 1) =~= trace);
    }
}

/// Two transcripts of a deterministic decoder on the same input agree as far
/// as both of them go.
proof fn lemma_transcripts_agree<D: Fn(&[u8], u64) -> DecodeOutcome>(
    decoder: D,
    bytes: Seq<u8>,
    address: u64,
    one: Seq<DecodeOutcome>,
    other: Seq<DecodeOutcome>,
    upto: int,
)
    requires
        deterministic(decoder),
        transcript(decoder, bytes, address, one),
        transcript(decoder, bytes, address, other),
        0 <= upto <= one.len(),
        upto <= other.len(),
    ensures
        one.take(upto) == other.take(upto),
    decreases upto,
{
    if upto == 0 {
        assert(one.take(0) =~= other.take(0));
    } else {
        lemma_transcripts_agree(decoder, bytes, address, one, other, upto - 1);
        // Both translations are in the same state, so both answers are to
        // the same question.
        let begin = start(address, bytes);
        assert(run(begin, one.take(upto - 1)) == run(begin, other.take(upto - 1)));
        assert(one[upto - 1] == other[upto - 1]);
        assert(one.take(upto) =~= one.take(upto - 1).push(one[upto - 1]));
        assert(other.take(upto) =~= other.take(upto - 1).push(other[upto - 1]));
    }
}

/// Translation is deterministic: with a decoder that answers the same
/// question always in the same way, two translations of the same bytes at the
/// same address get the same answers and come to the same result.
pub proof fn law_translation_is_deterministic<D: Fn(&[u8], u64) -> DecodeOutcome>(
    decoder: D,
    bytes: Seq<u8>,
    address: u64,
    one: Seq<DecodeOutcome>,
    other: Seq<DecodeOutcome>,
)
    requires
        deterministic(decoder),
        transcript(decoder, bytes, address, one),
        transcript(decoder, bytes, address, other),
        !(run(start(address, bytes), one) is Continue),
        !(run(start(address, bytes), other) is Continue),
    ensures
        one == other,
        run(start(address, bytes), one) == run(start(address, bytes), other),
{
    let begin = start(address, bytes);
    let shorter = if one.len() <= other.len() {
        one.len() as int
    } else {
        other.len() as int
    };
    lemma_transcripts_agree(decoder, bytes, address, one, other, shorter);
    if one.len() < other.len() {
        // `one` would be a proper prefix of `other`, after which the
        // translation still went on.
        assert(one.take(shorter) =~= one);
        assert(run(begin, other.take(shorter)) is Continue);
    } else if other.len() < one.len() {
        assert(other.take(shorter) =~= other);
        assert(run(begin, one.take(shorter)) is Continue);
    } else {
        assert(one.take(shorter) =~= one);
        assert(other.take(shorter) =~= other);
    }
}

} // verus!
