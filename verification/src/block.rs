//! The block translator: decode, lift, check for the end of the block, move
//! on.
//!
//! Decoding is not done here. [`BlockState::step`] takes what a decoder
//! answered and does the rest of one round: it lifts the instruction, checks
//! whether the block ends with it and, if not, moves on to the next offset.
//! [`Arm::translate_block`] runs the steps against a decoder it is handed.
//! What a run of steps yields is defined once, by [`step_spec`] and [`run`],
//! and every promise about blocks is made in those terms.
//!
//! [`Arm::translate_block`]: crate::arm::Arm::translate_block

use vstd::prelude::*;
use crate::control::{resolution, resolve, Successor};
use crate::error::Error;
use crate::il::{ControlFlowGraph, GraphView};
use crate::instruction::{DecodeOutcome, DecodedInstruction, DecoderFault};
use crate::semantics::{lift, lifted};

verus! {

/// What a [`BlockTranslationResult`] holds.
pub struct ResultView {
    /// The instructions of the block in order, each with its address.
    pub instructions: Seq<(u64, GraphView)>,
    /// The address of the first byte of the block.
    pub address: u64,
    /// The number of bytes the instructions of the block take.
    pub length: nat,
    /// The ways out of the block.
    pub successors: Seq<Successor>,
}

/// What a [`BlockState`] holds.
pub struct Progress {
    /// The address of the first byte of the block.
    pub address: u64,
    /// The number of bytes that may be decoded.
    pub limit: nat,
    /// The number of bytes decoded so far.
    pub offset: nat,
    /// The instructions lifted so far, each with its address.
    pub instructions: Seq<(u64, GraphView)>,
}

/// What a [`Step`] holds.
pub enum StepView {
    /// The block goes on: the decoder is to be asked again.
    Continue(Progress),
    /// The block is complete.
    Done(ResultView),
    /// The block cannot be lifted.
    Failed(Error),
}

/// Whether `entries` start at `start`, lie below `end`, have strictly
/// increasing addresses and each hold a graph tied to its own address.
pub open spec fn ordered(entries: Seq<(u64, GraphView)>, start: int, end: int) -> bool {
    &&& entries.len() > 0 ==> entries[0].0 == start
    &&& forall|i: int| 0 <= i < entries.len() ==> start <= (#[trigger] entries[i]).0 < end
    &&& forall|i: int, j: int|
        0 <= i < j < entries.len() ==> (#[trigger] entries[i]).0 < (#[trigger] entries[j]).0
    &&& forall|i: int|
        0 <= i < entries.len() ==> (#[trigger] entries[i]).1.address == Some(entries[i].0)
}

impl Progress {
    /// The state before anything is decoded.
    pub open spec fn initial(address: u64, limit: nat) -> Progress {
        Progress { address, limit, offset: 0, instructions: Seq::empty() }
    }

    /// The address at which the decoder is to be asked next.
    pub open spec fn cursor(self) -> int {
        self.address + self.offset
    }

    /// What holds of every state of a translation.
    pub open spec fn well_formed(self) -> bool {
        &&& self.offset <= self.limit
        &&& self.address + self.limit <= u64::MAX
        &&& self.instructions.len() > 0 <==> self.offset > 0
        &&& ordered(self.instructions, self.address as int, self.cursor())
    }

    /// Whether `instruction` is what a decoder may answer in this state: it
    /// has at least one byte, starts at the cursor and ends within the input.
    pub open spec fn admits(self, instruction: DecodedInstruction) -> bool {
        &&& instruction.size >= 1
        &&& instruction.address == self.cursor()
        &&& self.offset + instruction.size <= self.limit
    }
}

impl ResultView {
    /// What holds of every block that a translation hands back.
    pub open spec fn well_formed(self) -> bool {
        &&& self.address + self.length <= u64::MAX
        &&& self.instructions.len() > 0 <==> self.length > 0
        &&& ordered(self.instructions, self.address as int, self.address + self.length)
        &&& 1 <= self.successors.len() <= 2
        &&& self.successors.len() == 1 ==> self.successors[0].guard is None
        &&& self.successors.len() == 2 ==> {
            &&& self.instructions.len() > 0
            &&& self.successors[0].guard matches Some(guard)
            &&& guard.is_zero_test()
            &&& self.successors[1].guard == Some(guard.negated())
            &&& self.successors[1].target == self.address + self.length
        }
        &&& self.instructions.len() == 0 ==> self.successors == seq![
            Successor { target: self.address, guard: None },
        ]
    }
}

/// The number of bytes, of `length` bytes placed at `address`, that have an
/// address of their own: all of them, unless they run past the end of the
/// address space.
pub open spec fn reach(address: u64, length: nat) -> nat {
    if address + length <= u64::MAX {
        length
    } else {
        (u64::MAX - address) as nat
    }
}

/// The single way out of a block that ends because the input does: on to
/// `target`, unconditionally.
pub open spec fn fallthrough(target: int) -> Seq<Successor> {
    seq![Successor { target: target as u64, guard: None }]
}

/// One step of the translation: what becomes of the state `progress` when the
/// decoder, asked at the cursor, answers `outcome`.
///
/// - At a boundary the block is complete and falls through to the cursor.
/// - A fault of the decoder fails the block.
/// - An instruction that the state does not admit is a fault too.
/// - An instruction is lifted, then its control transfer is resolved; an
///   error in either fails the block, the one from lifting first.
/// - Otherwise the instruction joins the block. If its transfer ends the
///   block, the block is complete with the successors of the transfer; if
///   not, decoding goes on after the instruction.
pub open spec fn step_spec(progress: Progress, outcome: DecodeOutcome) -> StepView {
    match outcome {
        DecodeOutcome::Boundary => StepView::Done(
            ResultView {
                instructions: progress.instructions,
                address: progress.address,
                length: progress.offset,
                successors: fallthrough(progress.cursor()),
            },
        ),
        DecodeOutcome::Fault(fault) => StepView::Failed(Error::DecoderFault(fault)),
        DecodeOutcome::Instruction(instruction) => if !progress.admits(instruction) {
            StepView::Failed(Error::DecoderFault(DecoderFault::Inconsistent))
        } else {
            match lifted(instruction) {
                Err(error) => StepView::Failed(error),
                Ok(graph) => match resolution(instruction) {
                    Err(error) => StepView::Failed(error),
                    Ok(transfer) => {
                        let instructions = progress.instructions.push((instruction.address, graph));
                        let offset = progress.offset + instruction.size;
                        if transfer.terminates() {
                            StepView::Done(
                                ResultView {
                                    instructions,
                                    address: progress.address,
                                    length: offset as nat,
                                    successors: transfer.successor_list(instruction.end() as u64),
                                },
                            )
                        } else {
                            StepView::Continue(
                                Progress {
                                    address: progress.address,
                                    limit: progress.limit,
                                    offset: offset as nat,
                                    instructions,
                                },
                            )
                        }
                    },
                },
            }
        },
    }
}

/// What becomes of the state `progress` when the decoder gives the answers of
/// `trace` one after the other. Once the block is complete or has failed,
/// further answers change nothing.
pub open spec fn run(progress: Progress, trace: Seq<DecodeOutcome>) -> StepView
    decreases trace.len(),
{
    if trace.len() == 0 {
        StepView::Continue(progress)
    } else {
        match run(progress, trace.drop_last()) {
            StepView::Continue(reached) => step_spec(reached, trace.last()),
            ended => ended,
        }
    }
}

/// After one more answer, a run is where a step leads that starts in the
/// state reached so far.
pub proof fn lemma_run_push(progress: Progress, trace: Seq<DecodeOutcome>, outcome: DecodeOutcome)
    ensures
        run(progress, trace.push(outcome)) == match run(progress, trace) {
            StepView::Continue(reached) => step_spec(reached, outcome),
            ended => ended,
        },
{
    assert(trace.push(outcome).drop_last() =~= trace);
    assert(trace.push(outcome).last() == outcome);
}

/// A step keeps a well-formed state well-formed and moves it forward, and a
/// block it completes is well-formed.
pub proof fn lemma_step(progress: Progress, outcome: DecodeOutcome)
    requires
        progress.well_formed(),
    ensures
        match step_spec(progress, outcome) {
            StepView::Continue(next) => {
                &&& next.well_formed()
                &&& next.address == progress.address
                &&& next.limit == progress.limit
                &&& next.offset > progress.offset
                &&& next.instructions.len() == progress.instructions.len() + 1
            },
            StepView::Done(block) => block.well_formed() && block.address == progress.address,
            StepView::Failed(_) => true,
        },
{
}

/// The instructions of a complete block, each with its address.
pub open spec fn listing(entries: Seq<(u64, ControlFlowGraph)>) -> Seq<(u64, GraphView)> {
    entries.map_values(|entry: (u64, ControlFlowGraph)| (entry.0, entry.1@))
}

/// One basic block lifted into the intermediate language.
#[derive(Clone, Debug, PartialEq, Eq)]
pub struct BlockTranslationResult {
    instructions: Vec<(u64, ControlFlowGraph)>,
    address: u64,
    length: usize,
    successors: Vec<Successor>,
}

impl View for BlockTranslationResult {
    type V = ResultView;

    closed spec fn view(&self) -> ResultView {
        ResultView {
            instructions: listing(self.instructions@),
            address: self.address,
            length: self.length as nat,
            successors: self.successors@,
        }
    }
}

impl BlockTranslationResult {
    /// The instructions of the block in order, each with its address and the
    /// graph of its effects.
    pub fn instructions(&self) -> (r: &Vec<(u64, ControlFlowGraph)>)
        ensures
            listing(r@) == self@.instructions,
    {
        &self.instructions
    }

    /// The address of the first byte of the block.
    pub fn address(&self) -> (r: u64)
        ensures
            r == self@.address,
    {
        self.address
    }

    /// The number of bytes the instructions of the block take.
    pub fn length(&self) -> (r: usize)
        ensures
            r == self@.length,
    {
        self.length
    }

    /// The ways out of the block. Where there are two, the edge of the taken
    /// branch comes first.
    pub fn successors(&self) -> (r: &Vec<Successor>)
        ensures
            r@ == self@.successors,
    {
        &self.successors
    }
}

/// A block translation under way.
#[derive(Debug, PartialEq, Eq)]
pub struct BlockState {
    address: u64,
    limit: usize,
    offset: usize,
    instructions: Vec<(u64, ControlFlowGraph)>,
}

impl View for BlockState {
    type V = Progress;

    closed spec fn view(&self) -> Progress {
        Progress {
            address: self.address,
            limit: self.limit as nat,
            offset: self.offset as nat,
            instructions: listing(self.instructions@),
        }
    }
}

/// What a step of the translation comes to.
#[derive(Debug, PartialEq, Eq)]
pub enum Step {
    /// The block goes on: ask the decoder at the cursor of the state.
    Continue(BlockState),
    /// The block is complete.
    Done(BlockTranslationResult),
    /// The block cannot be lifted.
    Failed(Error),
}

impl View for Step {
    type V = StepView;

    open spec fn view(&self) -> StepView {
        match self {
            Step::Continue(state) => StepView::Continue(state@),
            Step::Done(block) => StepView::Done(block@),
            Step::Failed(error) => StepView::Failed(*error),
        }
    }
}

impl BlockState {
    #[verifier::type_invariant]
    spec fn valid(self) -> bool {
        self@.well_formed()
    }

    /// The state before anything is decoded, for a block that starts at
    /// `address` and has `length` bytes of input. Bytes that would lie past
    /// the end of the address space are left out of the block.
    pub fn new(address: u64, length: usize) -> (state: BlockState)
        ensures
            state@ == Progress::initial(address, reach(address, length as nat)),
            state@.well_formed(),
    {
        let room = u64::MAX - address;
        let limit = if length as u64 <= room {
            length
        } else {
            room as usize
        };
        let state = BlockState { address, limit, offset: 0, instructions: Vec::new() };
        assert(listing(state.instructions@) =~= Seq::empty());
        state
    }

    /// The number of bytes decoded so far: where in the input the decoder is
    /// to be asked next.
    pub fn offset(&self) -> (r: usize)
        ensures
            r == self@.offset,
            r <= self@.limit,
    {
        proof {
            use_type_invariant(self);
        }
        self.offset
    }

    /// The number of bytes that may be decoded: where the input of the block
    /// ends.
    pub fn limit(&self) -> (r: usize)
        ensures
            r == self@.limit,
    {
        self.limit
    }

    /// The address at which the decoder is to be asked next.
    pub fn cursor(&self) -> (r: u64)
        ensures
            r == self@.cursor(),
    {
        proof {
            use_type_invariant(self);
        }
        self.address + self.offset as u64
    }

    /// Tells whether `instruction` is what a decoder may answer in this state.
    pub fn admits(&self, instruction: &DecodedInstruction) -> (r: bool)
        ensures
            r == self@.admits(*instruction),
    {
        proof {
            use_type_invariant(self);
        }
        instruction.size >= 1 && instruction.address == self.address + self.offset as u64
            && instruction.size as usize <= self.limit - self.offset
    }

    /// Takes one step: hands the decoder's answer to the translation.
    pub fn step(self, outcome: DecodeOutcome) -> (r: Step)
        ensures
            r@ == step_spec(self@, outcome),
            self@.well_formed(),
            r matches Step::Continue(next) ==> next@.well_formed(),
            r matches Step::Done(block) ==> block@.well_formed(),
    {
        proof {
            use_type_invariant(&self);
            lemma_step(self@, outcome);
        }
        match outcome {
            DecodeOutcome::Boundary => {
                let mut successors: Vec<Successor> = Vec::new();
                successors.push(Successor { target: self.cursor(), guard: None });
                assert(successors@ =~= fallthrough(self@.cursor()));
                Step::Done(
                    BlockTranslationResult {
                        instructions: self.instructions,
                        address: self.address,
                        length: self.offset,
                        successors,
                    },
                )
            },
            DecodeOutcome::Fault(fault) => Step::Failed(Error::DecoderFault(fault)),
            DecodeOutcome::Instruction(instruction) => {
                if !self.admits(&instruction) {
                    return Step::Failed(Error::DecoderFault(DecoderFault::Inconsistent));
                }
                let graph = match lift(&instruction) {
                    Ok(graph) => graph,
                    Err(error) => {
                        return Step::Failed(error);
                    },
                };
                let transfer = match resolve(&instruction) {
                    Ok(transfer) => transfer,
                    Err(error) => {
                        return Step::Failed(error);
                    },
                };
                let ghost before = self@;
                let BlockState { address, limit, offset, mut instructions } = self;
                instructions.push((instruction.address, graph));
                assert(listing(instructions@) =~= before.instructions.push(
                    (instruction.address, graph@),
                ));
                let length = offset + instruction.size as usize;
                if transfer.is_terminating() {
                    let next = instruction.address + instruction.size as u64;
                    Step::Done(
                        BlockTranslationResult {
                            instructions,
                            address,
                            length,
                            successors: transfer.successors(next),
                        },
                    )
                } else {
                    Step::Continue(BlockState { address, limit, offset: length, instructions })
                }
            },
        }
    }
}

} // verus!
