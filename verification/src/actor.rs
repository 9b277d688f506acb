//! The render actor's decision core.
//!
//! The actor is the single consumer of the command queue: it owns the device
//! and the per-frame synchronization primitives, and it executes commands
//! strictly in arrival order. This module captures, as verified code, exactly
//! which device operations each command turns into and how the actor's state
//! (the current frame slot of the ring) advances; the thread that owns the
//! real device performs the operations in the order given here.

use vstd::arithmetic::div_mod::lemma_mod_adds;
use vstd::prelude::*;

use crate::descriptor::DescriptorWrite;
use crate::vust_command::{ScissorRect, VustCommand};
use crate::MAX_FRAMES_IN_FLIGHT;

verus! {

/// One direct device operation, named after the device call it stands for.
/// `slot` is the frame-slot index whose primitives the call works on.
/// Handles are raw device object ids.
#[derive(Clone, Copy, Debug)]
pub enum DeviceOp {
    WaitForFence { slot: usize },
    ResetFence { slot: usize },
    ResetRecorder { slot: usize },
    AcquireImage { slot: usize },
    BeginRecording { slot: usize },
    BeginRenderPass { slot: usize },
    CmdBindPipeline { pipeline: u64 },
    CmdSetViewport { viewport: ash::vk::Viewport },
    CmdSetScissor { scissor: ScissorRect },
    CmdBindDescriptorSet { pipeline_layout: u64, descriptor_set: u64 },
    CmdBindVertexBuffer { vertex_buffer: u64 },
    CmdBindIndexBuffer { index_buffer: u64 },
    CmdDraw { vertex_count: u32 },
    CmdDrawIndexed { index_count: u32 },
    WriteDescriptor { write: DescriptorWrite },
    EndRenderPass { slot: usize },
    EndRecording { slot: usize },
    SubmitQueue { slot: usize },
    PresentImage { slot: usize },
    FreeAllocation,
    DestroyBufferObject { buffer: u64 },
    DestroyImageObject { image: u64 },
    DestroyImageView { view: u64 },
    DestroySampler { sampler: u64 },
    WaitDeviceIdle,
}

/// The actor's own state: which frame slot is current, and whether a frame is
/// open for recording. The slot index advances only on `SubmitFrame`, strictly
/// to the next slot of the ring, never skipped or repeated.
#[derive(Clone, Copy, Debug, PartialEq, Eq, Structural)]
pub struct ActorState {
    pub current_frame: usize,
    pub frame_open: bool,
}

/// The actor's state before any command has been executed.
pub open spec fn spec_initial_actor_state() -> ActorState {
    ActorState { current_frame: 0, frame_open: false }
}

pub fn initial_actor_state() -> (r: ActorState)
    ensures
        r == spec_initial_actor_state(),
        r.wf(),
{
    ActorState { current_frame: 0, frame_open: false }
}

impl ActorState {
    pub open spec fn wf(self) -> bool {
        self.current_frame < MAX_FRAMES_IN_FLIGHT
    }
}

/// The frame slot that follows `frame` in the ring.
pub open spec fn spec_next_frame(frame: usize) -> usize {
    (((frame as int) + 1) % (MAX_FRAMES_IN_FLIGHT as int)) as usize
}

/// The device operations the actor performs for one command, executed from
/// state `s`:
/// - `OpenFrame`: wait on the current slot's fence, reset it, reset that
///   slot's recorder, acquire the slot's presentable image, begin recording,
///   begin the render pass;
/// - binds and draws: the single pass-through recording call;
/// - `UpdateDescriptorSet`: one write per payload into the binding-table
///   instance of the slot that is current when the command executes;
/// - `SubmitFrame`: end the render pass and the recording, submit, present;
/// - destroys: free the allocation and destroy the device object(s);
/// - `Shutdown`: wait for the device to go idle.
pub open spec fn ops_of(s: ActorState, c: VustCommand) -> Seq<DeviceOp> {
    let cf = s.current_frame;
    match c {
        VustCommand::OpenFrame => seq![
            DeviceOp::WaitForFence { slot: cf },
            DeviceOp::ResetFence { slot: cf },
            DeviceOp::ResetRecorder { slot: cf },
            DeviceOp::AcquireImage { slot: cf },
            DeviceOp::BeginRecording { slot: cf },
            DeviceOp::BeginRenderPass { slot: cf },
        ],
        VustCommand::BindPipeline { pipeline_handle } => seq![
            DeviceOp::CmdBindPipeline { pipeline: pipeline_handle },
        ],
        VustCommand::BindViewport { viewport } => seq![DeviceOp::CmdSetViewport { viewport }],
        VustCommand::BindScissor { scissor } => seq![DeviceOp::CmdSetScissor { scissor }],
        VustCommand::BindDescriptorSet { pipeline_layout, descriptor } => seq![
            DeviceOp::CmdBindDescriptorSet {
                pipeline_layout,
                descriptor_set: descriptor.descriptor_set@[cf as int],
            },
        ],
        VustCommand::BindVertexBuffer { vertex_buffer } => seq![
            DeviceOp::CmdBindVertexBuffer { vertex_buffer },
        ],
        VustCommand::BindIndexBuffer { index_buffer } => seq![
            DeviceOp::CmdBindIndexBuffer { index_buffer },
        ],
        VustCommand::Draw { vertex_count } => seq![DeviceOp::CmdDraw { vertex_count }],
        VustCommand::DrawIndexed { index_count } => seq![DeviceOp::CmdDrawIndexed { index_count }],
        VustCommand::UpdateDescriptorSet { descriptor, write_descriptor_infos } => descriptor
            .spec_writes_for_slot(write_descriptor_infos@, cf as int)
            .map_values(|w: DescriptorWrite| DeviceOp::WriteDescriptor { write: w }),
        VustCommand::SubmitFrame => seq![
            DeviceOp::EndRenderPass { slot: cf },
            DeviceOp::EndRecording { slot: cf },
            DeviceOp::SubmitQueue { slot: cf },
            DeviceOp::PresentImage { slot: cf },
        ],
        VustCommand::DestroyBuffer { buffer, .. } => seq![
            DeviceOp::FreeAllocation,
            DeviceOp::DestroyBufferObject { buffer },
        ],
        VustCommand::DestroyTexture { image, view, sampler, .. } => seq![
            DeviceOp::DestroyImageObject { image },
            DeviceOp::FreeAllocation,
            DeviceOp::DestroyImageView { view },
            DeviceOp::DestroySampler { sampler },
        ],
        VustCommand::Shutdown => seq![DeviceOp::WaitDeviceIdle],
    }
}

/// The actor's state after one command: `OpenFrame` opens the current slot,
/// `SubmitFrame` closes it and advances the ring by exactly one, everything
/// else leaves the state unchanged.
pub open spec fn state_of(s: ActorState, c: VustCommand) -> ActorState {
    match c {
        VustCommand::OpenFrame => ActorState { current_frame: s.current_frame, frame_open: true },
        VustCommand::SubmitFrame => ActorState {
            current_frame: spec_next_frame(s.current_frame),
            frame_open: false,
        },
        _ => s,
    }
}

/// Whether executing the command releases one back-pressure token: exactly the
/// frame-opening command does.
pub open spec fn sends_token(c: VustCommand) -> bool {
    c is OpenFrame
}

/// What executing one command produced: the device operations in the order
/// they must be performed, the new actor state, whether one back-pressure
/// token is to be released, and whether the actor must stop.
pub struct StepEffect {
    pub ops: Vec<DeviceOp>,
    pub state: ActorState,
    pub token: bool,
    pub stop: bool,
}

/// Execute one command against the actor state, producing the device
/// operations it stands for. Pure decision code: the caller that owns the
/// device performs `r.ops` in order, then releases a token if `r.token`.
pub fn step(state: ActorState, cmd: &VustCommand) -> (r: StepEffect)
    requires
        state.wf(),
        cmd.wf(),
    ensures
        r.state == state_of(state, *cmd),
        r.state.wf(),
        r.ops@ == ops_of(state, *cmd),
        r.token == sends_token(*cmd),
        r.stop == (*cmd is Shutdown),
{
    let cf = state.current_frame;
    let r = match cmd {
        VustCommand::OpenFrame => {
            let ops = vec![
                DeviceOp::WaitForFence { slot: cf },
                DeviceOp::ResetFence { slot: cf },
                DeviceOp::ResetRecorder { slot: cf },
                DeviceOp::AcquireImage { slot: cf },
                DeviceOp::BeginRecording { slot: cf },
                DeviceOp::BeginRenderPass { slot: cf },
            ];
            StepEffect {
                ops,
                state: ActorState { current_frame: cf, frame_open: true },
                token: true,
                stop: false,
            }
        },
        VustCommand::BindPipeline { pipeline_handle } => StepEffect {
            ops: make_single_op(DeviceOp::CmdBindPipeline { pipeline: *pipeline_handle }),
            state,
            token: false,
            stop: false,
        },
        VustCommand::BindViewport { viewport } => StepEffect {
            ops: make_single_op(DeviceOp::CmdSetViewport { viewport: *viewport }),
            state,
            token: false,
            stop: false,
        },
        VustCommand::BindScissor { scissor } => StepEffect {
            ops: make_single_op(DeviceOp::CmdSetScissor { scissor: *scissor }),
            state,
            token: false,
            stop: false,
        },
        VustCommand::BindDescriptorSet { pipeline_layout, descriptor } => StepEffect {
            ops: make_single_op(
                DeviceOp::CmdBindDescriptorSet {
                    pipeline_layout: *pipeline_layout,
                    descriptor_set: descriptor.descriptor_set[cf],
                },
            ),
            state,
            token: false,
            stop: false,
        },
        VustCommand::BindVertexBuffer { vertex_buffer } => StepEffect {
            ops: make_single_op(DeviceOp::CmdBindVertexBuffer { vertex_buffer: *vertex_buffer }),
            state,
            token: false,
            stop: false,
        },
        VustCommand::BindIndexBuffer { index_buffer } => StepEffect {
            ops: make_single_op(DeviceOp::CmdBindIndexBuffer { index_buffer: *index_buffer }),
            state,
            token: false,
            stop: false,
        },
        VustCommand::Draw { vertex_count } => StepEffect {
            ops: make_single_op(DeviceOp::CmdDraw { vertex_count: *vertex_count }),
            state,
            token: false,
            stop: false,
        },
        VustCommand::DrawIndexed { index_count } => StepEffect {
            ops: make_single_op(DeviceOp::CmdDrawIndexed { index_count: *index_count }),
            state,
            token: false,
            stop: false,
        },
        VustCommand::UpdateDescriptorSet { descriptor, write_descriptor_infos } => {
            let writes = descriptor.writes_for_slot(write_descriptor_infos, cf);
            let mut ops: Vec<DeviceOp> = Vec::new();
            let ghost target = ops_of(state, *cmd);
            let mut i: usize = 0;
            while i < writes.len()
                invariant
                    i <= writes@.len(),
                    target == writes@.map_values(
                        |w: DescriptorWrite| DeviceOp::WriteDescriptor { write: w },
                    ),
                    ops@ == target.take(i as int),
                decreases writes@.len() - i,
            {
                ops.push(DeviceOp::WriteDescriptor { write: writes[i] });
                proof {
                    assert(ops@ =~= target.take(i + 1));
                }
                i = i + 1;
            }
            proof {
                assert(ops@ =~= target);
            }
            StepEffect { ops, state, token: false, stop: false }
        },
        VustCommand::SubmitFrame => {
            let ops = vec![
                DeviceOp::EndRenderPass { slot: cf },
                DeviceOp::EndRecording { slot: cf },
                DeviceOp::SubmitQueue { slot: cf },
                DeviceOp::PresentImage { slot: cf },
            ];
            StepEffect {
                ops,
                state: ActorState { current_frame: crate::next_frame(cf), frame_open: false },
                token: false,
                stop: false,
            }
        },
        VustCommand::DestroyBuffer { buffer, .. } => {
            let ops = vec![
                DeviceOp::FreeAllocation,
                DeviceOp::DestroyBufferObject { buffer: *buffer },
            ];
            StepEffect { ops, state, token: false, stop: false }
        },
        VustCommand::DestroyTexture { image, view, sampler, .. } => {
            let ops = vec![
                DeviceOp::DestroyImageObject { image: *image },
                DeviceOp::FreeAllocation,
                DeviceOp::DestroyImageView { view: *view },
                DeviceOp::DestroySampler { sampler: *sampler },
            ];
            StepEffect { ops, state, token: false, stop: false }
        },
        VustCommand::Shutdown => StepEffect {
            ops: make_single_op(DeviceOp::WaitDeviceIdle),
            state,
            token: false,
            stop: true,
        },
    };
    proof {
        assert(r.ops@ =~= ops_of(state, *cmd));
    }
    r
}

fn make_single_op(op: DeviceOp) -> (r: Vec<DeviceOp>)
    ensures
        r@ == seq![op],
{
    let mut r: Vec<DeviceOp> = Vec::new();
    r.push(op);
    proof {
        assert(r@ =~= seq![op]);
    }
    r
}

/// How many of the given commands the actor executes: everything up to and
/// including the first `Shutdown`, or all of them when none is queued.
pub open spec fn executed_len(cmds: Seq<VustCommand>) -> nat
    decreases cmds.len(),
{
    if cmds.len() == 0 {
        0
    } else if cmds[0] is Shutdown {
        1
    } else {
        1 + executed_len(cmds.drop_first())
    }
}

/// The actor's state after draining the commands, in order, stopping at the
/// first `Shutdown`.
pub open spec fn state_after(s: ActorState, cmds: Seq<VustCommand>) -> ActorState
    decreases cmds.len(),
{
    if cmds.len() == 0 {
        s
    } else if cmds[0] is Shutdown {
        state_of(s, cmds[0])
    } else {
        state_after(state_of(s, cmds[0]), cmds.drop_first())
    }
}

/// Every device operation the drain performs, in order: the operations of each
/// executed command, one command after the other, exactly in arrival order.
pub open spec fn trace_of(s: ActorState, cmds: Seq<VustCommand>) -> Seq<DeviceOp>
    decreases cmds.len(),
{
    if cmds.len() == 0 {
        Seq::empty()
    } else if cmds[0] is Shutdown {
        ops_of(s, cmds[0])
    } else {
        ops_of(s, cmds[0]) + trace_of(state_of(s, cmds[0]), cmds.drop_first())
    }
}

/// How many back-pressure tokens the drain releases: one per executed
/// frame-opening command. `Shutdown` itself releases none.
pub open spec fn tokens_of(cmds: Seq<VustCommand>) -> nat
    decreases cmds.len(),
{
    if cmds.len() == 0 {
        0
    } else if cmds[0] is Shutdown {
        0
    } else {
        (if sends_token(cmds[0]) {
            1nat
        } else {
            0nat
        }) + tokens_of(cmds.drop_first())
    }
}

/// How many frame submissions the actor executes among the given commands.
pub open spec fn count_submits(cmds: Seq<VustCommand>) -> nat
    decreases cmds.len(),
{
    if cmds.len() == 0 {
        0
    } else if cmds[0] is Shutdown {
        0
    } else {
        (if cmds[0] is SubmitFrame {
            1nat
        } else {
            0nat
        }) + count_submits(cmds.drop_first())
    }
}

/// What a whole drain produced: the final actor state, the full device
/// operation trace in execution order, the number of back-pressure tokens
/// released, and how many commands were executed.
pub struct DrainOutcome {
    pub state: ActorState,
    pub trace: Vec<DeviceOp>,
    pub tokens_sent: usize,
    pub executed: usize,
}

/// Drain a batch of commands in arrival order, stopping at the first
/// `Shutdown`; commands behind it are not executed. The trace is exactly the
/// concatenation, in enqueue order, of each executed command's operations.
pub fn drain(start: ActorState, cmds: &Vec<VustCommand>) -> (r: DrainOutcome)
    requires
        start.wf(),
        forall|i: int| 0 <= i < cmds@.len() ==> (#[trigger] cmds@[i]).wf(),
    ensures
        r.state == state_after(start, cmds@),
        r.state.wf(),
        r.trace@ == trace_of(start, cmds@),
        r.tokens_sent == tokens_of(cmds@),
        r.executed == executed_len(cmds@),
{
    let mut state = start;
    let mut trace: Vec<DeviceOp> = Vec::new();
    let mut tokens_sent: usize = 0;
    let mut i: usize = 0;
    proof {
        assert(cmds@.skip(0) =~= cmds@);
        assert(trace@ + trace_of(state, cmds@.skip(0)) =~= trace_of(start, cmds@));
    }
    loop
        invariant_except_break
            state.wf(),
            i <= cmds@.len(),
            tokens_sent <= i,
            forall|k: int| 0 <= k < cmds@.len() ==> (#[trigger] cmds@[k]).wf(),
            forall|k: int| 0 <= k < i ==> !((#[trigger] cmds@[k]) is Shutdown),
            state_after(start, cmds@) == state_after(state, cmds@.skip(i as int)),
            trace_of(start, cmds@) == trace@ + trace_of(state, cmds@.skip(i as int)),
            tokens_of(cmds@) == tokens_sent + tokens_of(cmds@.skip(i as int)),
            executed_len(cmds@) == i + executed_len(cmds@.skip(i as int)),
        ensures
            state.wf(),
            state == state_after(start, cmds@),
            trace@ == trace_of(start, cmds@),
            tokens_sent == tokens_of(cmds@),
            i == executed_len(cmds@),
        decreases cmds@.len() - i,
    {
        if i == cmds.len() {
            proof {
                assert(cmds@.skip(i as int) =~= Seq::<VustCommand>::empty());
            }
            break ;
        }
        let ghost rest = cmds@.skip(i as int);
        proof {
            assert(rest[0] == cmds@[i as int]);
            assert(rest.drop_first() =~= cmds@.skip(i + 1));
        }
        let ghost old_trace = trace@;
        let ghost old_state = state;
        let StepEffect { ops, state: next_state, token, stop } = step(state, &cmds[i]);
        let mut ops = ops;
        trace.append(&mut ops);
        state = next_state;
        proof {
            assert(trace@ =~= old_trace + ops_of(old_state, rest[0]));
            if !(rest[0] is Shutdown) {
                assert(trace_of(start, cmds@) =~= trace@ + trace_of(state, rest.drop_first()));
            }
        }
        if token {
            tokens_sent = tokens_sent + 1;
        }
        i = i + 1;
        if stop {
            proof {
                assert(state_after(start, cmds@) == state);
                assert(trace_of(start, cmds@) == trace@);
                assert(tokens_of(cmds@) == tokens_sent);
                assert(executed_len(cmds@) == i);
            }
            break ;
        }
    }
    DrainOutcome { state, trace, tokens_sent, executed: i }
}

/// Draining `a + b` is draining `a` and then draining `b` from where `a`
/// left off, as long as `a` contains no `Shutdown`: the trace of the whole is
/// the trace of `a` followed by the trace of `b`, in that order. This is the
/// first-in-first-out guarantee of the command queue: the operations of a
/// command are performed strictly after those of every command enqueued
/// before it.
pub proof fn lemma_drain_append(s: ActorState, a: Seq<VustCommand>, b: Seq<VustCommand>)
    requires
        forall|i: int| 0 <= i < a.len() ==> !((#[trigger] a[i]) is Shutdown),
    ensures
        state_after(s, a + b) == state_after(state_after(s, a), b),
        trace_of(s, a + b) == trace_of(s, a) + trace_of(state_after(s, a), b),
        tokens_of(a + b) == tokens_of(a) + tokens_of(b),
        count_submits(a + b) == count_submits(a) + count_submits(b),
        executed_len(a + b) == a.len() + executed_len(b),
    decreases a.len(),
{
    if a.len() == 0 {
        assert(a + b =~= b);
        assert(trace_of(s, a) + trace_of(s, b) =~= trace_of(s, b));
    } else {
        assert((a + b)[0] == a[0]);
        assert((a + b).drop_first() =~= a.drop_first() + b);
        assert(forall|i: int|
            0 <= i < a.drop_first().len() ==> !((#[trigger] a.drop_first()[i]) is Shutdown));
        lemma_drain_append(state_of(s, a[0]), a.drop_first(), b);
        assert(trace_of(s, a + b) =~= trace_of(s, a) + trace_of(state_after(s, a), b));
    }
}

/// The current frame slot after a drain is the starting slot advanced once
/// per executed frame submission, modulo the ring size: submissions advance
/// the ring one slot at a time, never skipped and never repeated.
pub proof fn lemma_frame_slot_counts_submits(s: ActorState, cmds: Seq<VustCommand>)
    requires
        s.wf(),
    ensures
        state_after(s, cmds).current_frame as int == (s.current_frame + count_submits(cmds)) % (
        MAX_FRAMES_IN_FLIGHT as int),
    decreases cmds.len(),
{
    let n = MAX_FRAMES_IN_FLIGHT as int;
    if cmds.len() == 0 {
        vstd::arithmetic::div_mod::lemma_small_mod(s.current_frame as nat, MAX_FRAMES_IN_FLIGHT as nat);
    } else if cmds[0] is Shutdown {
        vstd::arithmetic::div_mod::lemma_small_mod(s.current_frame as nat, MAX_FRAMES_IN_FLIGHT as nat);
    } else {
        let s1 = state_of(s, cmds[0]);
        let rest = cmds.drop_first();
        lemma_frame_slot_counts_submits(s1, rest);
        if cmds[0] is SubmitFrame {
            let cf = s.current_frame as int;
            let c = count_submits(rest) as int;
            assert(s1.current_frame as int == (cf + 1) % n);
            lemma_mod_adds(cf + 1, c, n);
            vstd::arithmetic::div_mod::lemma_mod_twice(cf + 1, n);
            lemma_mod_adds((cf + 1) % n, c, n);
            assert(((cf + 1) % n + c) % n == (cf + 1 + c) % n) by {
                assert(((cf + 1) % n) % n == (cf + 1) % n);
                assert(((cf + 1) % n + c % n) % n == ((cf + 1) % n + c) % n);
                assert(((cf + 1) % n + c % n) % n == ((cf + 1) + c) % n);
            }
        }
    }
}

/// The commands of `k` frame open/submit rounds, in enqueue order.
pub open spec fn open_submit_pairs(k: nat) -> Seq<VustCommand>
    decreases k,
{
    if k == 0 {
        Seq::empty()
    } else {
        open_submit_pairs((k - 1) as nat) + seq![VustCommand::OpenFrame, VustCommand::SubmitFrame]
    }
}

/// For every k, after draining k open/submit pairs from the initial state the
/// current frame slot is exactly k modulo the ring size.
pub proof fn lemma_frame_slot_after_pairs(k: nat)
    ensures
        state_after(spec_initial_actor_state(), open_submit_pairs(k)).current_frame as int == (
        k as int) % (MAX_FRAMES_IN_FLIGHT as int),
{
    lemma_pairs_shape(k);
    lemma_frame_slot_counts_submits(spec_initial_actor_state(), open_submit_pairs(k));
}

/// The k open/submit pairs contain no shutdown and exactly k submissions.
pub proof fn lemma_pairs_shape(k: nat)
    ensures
        forall|i: int|
            0 <= i < open_submit_pairs(k).len() ==> !((#[trigger] open_submit_pairs(k)[i])
                is Shutdown),
        count_submits(open_submit_pairs(k)) == k,
        open_submit_pairs(k).len() == 2 * k,
    decreases k,
{
    if k == 0 {
    } else {
        let prev = open_submit_pairs((k - 1) as nat);
        let pair = seq![VustCommand::OpenFrame, VustCommand::SubmitFrame];
        lemma_pairs_shape((k - 1) as nat);
        assert(count_submits(pair) == 1) by {
            let p1 = pair.drop_first();
            assert(p1 =~= seq![VustCommand::SubmitFrame]);
            assert(p1.drop_first() =~= Seq::<VustCommand>::empty());
            assert(count_submits(p1.drop_first()) == 0);
            assert(p1[0] is SubmitFrame);
            assert(count_submits(p1) == 1);
            assert(pair[0] is OpenFrame);
        }
        lemma_drain_append(spec_initial_actor_state(), prev, pair);
        assert(forall|i: int|
            0 <= i < open_submit_pairs(k).len() ==> !((#[trigger] open_submit_pairs(k)[i])
                is Shutdown)) by {
            assert(forall|i: int|
                0 <= i < open_submit_pairs(k).len() ==> open_submit_pairs(k)[i] == (prev + pair)[i]);
        }
    }
}

/// Before the first frame has been opened no back-pressure token exists: a
/// drain of commands among which no `OpenFrame` occurs releases none, so a
/// producer synchronizing against it blocks.
pub proof fn lemma_no_token_before_first_open(cmds: Seq<VustCommand>)
    requires
        forall|i: int| 0 <= i < cmds.len() ==> !((#[trigger] cmds[i]) is OpenFrame),
    ensures
        tokens_of(cmds) == 0,
    decreases cmds.len(),
{
    if cmds.len() == 0 {
    } else if cmds[0] is Shutdown {
    } else {
        assert(forall|i: int|
            0 <= i < cmds.drop_first().len() ==> !((#[trigger] cmds.drop_first()[i]) is OpenFrame));
        lemma_no_token_before_first_open(cmds.drop_first());
    }
}

/// Whether a device operation works on the device object with raw id `h`.
pub open spec fn op_touches(op: DeviceOp, h: u64) -> bool {
    match op {
        DeviceOp::CmdBindPipeline { pipeline } => pipeline == h,
        DeviceOp::CmdBindDescriptorSet { pipeline_layout, descriptor_set } => pipeline_layout == h
            || descriptor_set == h,
        DeviceOp::CmdBindVertexBuffer { vertex_buffer } => vertex_buffer == h,
        DeviceOp::CmdBindIndexBuffer { index_buffer } => index_buffer == h,
        DeviceOp::WriteDescriptor { write } => write.dst_set == h || info_touches(write.info, h),
        DeviceOp::DestroyBufferObject { buffer } => buffer == h,
        DeviceOp::DestroyImageObject { image } => image == h,
        DeviceOp::DestroyImageView { view } => view == h,
        DeviceOp::DestroySampler { sampler } => sampler == h,
        _ => false,
    }
}

/// Whether a descriptor-write payload refers to the device object `h`.
pub open spec fn info_touches(info: crate::write_descriptor_info::WriteDescriptorInfo, h: u64) -> bool {
    match info {
        crate::write_descriptor_info::WriteDescriptorInfo::Buffer { buffer, .. } => buffer == h,
        crate::write_descriptor_info::WriteDescriptorInfo::Image { image_view, sampler } =>
            image_view == h || sampler == h,
    }
}

/// Whether a command carries a reference to the device object with raw id `h`.
pub open spec fn cmd_touches(c: VustCommand, h: u64) -> bool {
    match c {
        VustCommand::BindPipeline { pipeline_handle } => pipeline_handle == h,
        VustCommand::BindDescriptorSet { pipeline_layout, descriptor } => pipeline_layout == h
            || descriptor.descriptor_pool == h || descriptor.descriptor_set@.contains(h),
        VustCommand::BindVertexBuffer { vertex_buffer } => vertex_buffer == h,
        VustCommand::BindIndexBuffer { index_buffer } => index_buffer == h,
        VustCommand::UpdateDescriptorSet { descriptor, write_descriptor_infos } => descriptor
            .descriptor_pool == h || descriptor.descriptor_set@.contains(h) || exists|i: int|
            0 <= i < write_descriptor_infos@.len() && info_touches(
                #[trigger] write_descriptor_infos@[i],
                h,
            ),
        VustCommand::DestroyBuffer { buffer, .. } => buffer == h,
        VustCommand::DestroyTexture { image, view, sampler, .. } => image == h || view == h
            || sampler == h,
        _ => false,
    }
}

/// A command that does not refer to a device object produces no operation that
/// touches it.
pub proof fn lemma_step_touches_only_command_handles(s: ActorState, c: VustCommand, h: u64)
    requires
        s.wf(),
        c.wf(),
        !cmd_touches(c, h),
    ensures
        forall|j: int| 0 <= j < ops_of(s, c).len() ==> !op_touches(#[trigger] ops_of(s, c)[j], h),
{
    match c {
        VustCommand::BindDescriptorSet { pipeline_layout, descriptor } => {
            assert(descriptor.descriptor_set@[s.current_frame as int] != h);
        },
        VustCommand::UpdateDescriptorSet { descriptor, write_descriptor_infos } => {
            assert(descriptor.descriptor_set@[s.current_frame as int] != h);
            assert forall|j: int| 0 <= j < ops_of(s, c).len() implies !op_touches(
                #[trigger] ops_of(s, c)[j],
                h,
            ) by {
                assert(!info_touches(write_descriptor_infos@[j], h));
            }
        },
        _ => {},
    }
}

/// A resource that no executed command refers to is never touched by the
/// device: the whole trace of a drain performs no operation on its handle.
/// In particular a buffer that sits beside another one being drawn from and
/// destroyed stays untouched throughout.
pub proof fn lemma_untouched_resource(s: ActorState, cmds: Seq<VustCommand>, h: u64)
    requires
        s.wf(),
        forall|i: int| 0 <= i < cmds.len() ==> (#[trigger] cmds[i]).wf(),
        forall|i: int| 0 <= i < cmds.len() ==> !cmd_touches(#[trigger] cmds[i], h),
    ensures
        forall|j: int|
            0 <= j < trace_of(s, cmds).len() ==> !op_touches(#[trigger] trace_of(s, cmds)[j], h),
    decreases cmds.len(),
{
    if cmds.len() == 0 {
    } else if cmds[0] is Shutdown {
        lemma_step_touches_only_command_handles(s, cmds[0], h);
    } else {
        lemma_step_touches_only_command_handles(s, cmds[0], h);
        lemma_untouched_resource(state_of(s, cmds[0]), cmds.drop_first(), h);
        assert forall|j: int| 0 <= j < trace_of(s, cmds).len() implies !op_touches(
            #[trigger] trace_of(s, cmds)[j],
            h,
        ) by {
            let head = ops_of(s, cmds[0]);
            let tail = trace_of(state_of(s, cmds[0]), cmds.drop_first());
            if j < head.len() {
                assert(trace_of(s, cmds)[j] == head[j]);
            } else {
                assert(trace_of(s, cmds)[j] == tail[j - head.len()]);
            }
        }
    }
}

} // verus!
