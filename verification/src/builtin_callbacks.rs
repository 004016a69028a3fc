//! The nodes that every graph has: clears, and the walk over the commands of
//! a batch.
use crate::node_callbacks::AttachmentOps;
use crate::node_callbacks::NodeError;
use vstd::prelude::*;

verus! {

/// Clear of the colour of a target.
pub const CLEAR_COLOR: u32 = 1;

/// Clear of the depth of a target.
pub const CLEAR_DEPTH: u32 = 2;

/// Clear of the stencil of a target.
pub const CLEAR_STENCIL: u32 = 4;

/// What a clear node is asked to clear, as a bit mask.
#[derive(Clone, Copy, Debug, PartialEq, Eq, Structural)]
pub struct ClearFlags {
    pub bits: u32,
}

/// What a clear of a depth-stencil target does to its two aspects; `None`
/// leaves an aspect alone.
#[derive(Clone, Copy, Debug, PartialEq, Eq, Structural)]
pub struct DepthStencilOps {
    pub depth_ops: Option<AttachmentOps>,
    pub stencil_ops: Option<AttachmentOps>,
}

/// What a clear of a depth-stencil target does: depth is cleared and kept,
/// stencil is left alone. A clear of anything but depth alone is refused.
pub fn clear_depth_stencil(flags: ClearFlags) -> (r: Result<DepthStencilOps, NodeError>)
    ensures
        r == (if flags.bits == CLEAR_DEPTH {
            Ok::<DepthStencilOps, NodeError>(
                DepthStencilOps {
                    depth_ops: Some(AttachmentOps { clear: true, store: true }),
                    stencil_ops: None,
                },
            )
        } else {
            Err::<DepthStencilOps, NodeError>(NodeError::UnsupportedClear)
        }),
{
    if flags.bits != CLEAR_DEPTH {
        return Err(NodeError::UnsupportedClear);
    }
    Ok(
        DepthStencilOps {
            depth_ops: Some(AttachmentOps { clear: true, store: true }),
            stencil_ops: None,
        },
    )
}

/// What a clear of a colour target does: colour is cleared and kept.
pub fn clear_color() -> (ops: AttachmentOps)
    ensures
        ops == (AttachmentOps { clear: true, store: true }),
{
    AttachmentOps { clear: true, store: true }
}

/// One command of the schedule: a node of the graph, or a transition that
/// the scheduler put between nodes.
#[derive(Clone, Copy, Debug, PartialEq, Eq, Structural)]
pub struct RuntimeCmdInfo {
    pub is_transition: bool,
    pub cmd_id: u32,
}

/// Why the commands of a batch cannot be walked.
#[derive(Clone, Copy, Debug, PartialEq, Eq, Structural)]
pub enum RecordError {
    /// The batch reaches beyond the end of the schedule.
    BatchOutOfRange,
    /// A command names a node that the graph does not have.
    UnknownCommand,
}

/// The nodes among `cmds`, in their order.
pub open spec fn spec_node_ids(cmds: Seq<RuntimeCmdInfo>) -> Seq<u32>
    decreases cmds.len(),
{
    if cmds.len() == 0 {
        Seq::empty()
    } else if cmds.last().is_transition {
        spec_node_ids(cmds.drop_last())
    } else {
        spec_node_ids(cmds.drop_last()).push(cmds.last().cmd_id)
    }
}

/// Whether every node among `cmds` is one of the `cmd_count` nodes of the
/// graph.
pub open spec fn spec_all_known(cmds: Seq<RuntimeCmdInfo>, cmd_count: nat) -> bool {
    forall|i: int| 0 <= i < cmds.len() && !(#[trigger] cmds[i]).is_transition ==> cmds[i].cmd_id < cmd_count
}

/// Walks the commands of one batch, `num_cmds` commands from
/// `cmd_begin_index` on, and returns the nodes to record, in the order of the
/// schedule: every command of the batch that is no transition, none skipped.
pub fn record_commands(
    runtime_cmd_infos: &Vec<RuntimeCmdInfo>,
    cmd_count: usize,
    cmd_begin_index: u32,
    num_cmds: u32,
) -> (r: Result<Vec<u32>, RecordError>)
    ensures
        match r {
            Ok(ids) => {
                let batch = runtime_cmd_infos@.subrange(
                    cmd_begin_index as int,
                    cmd_begin_index + num_cmds,
                );
                &&& cmd_begin_index + num_cmds <= runtime_cmd_infos@.len()
                &&& spec_all_known(batch, cmd_count as nat)
                &&& ids@ == spec_node_ids(batch)
            },
            Err(RecordError::BatchOutOfRange) => cmd_begin_index + num_cmds
                > runtime_cmd_infos@.len(),
            Err(RecordError::UnknownCommand) => cmd_begin_index + num_cmds
                <= runtime_cmd_infos@.len() && !spec_all_known(
                runtime_cmd_infos@.subrange(cmd_begin_index as int, cmd_begin_index + num_cmds),
                cmd_count as nat,
            ),
        },
{
    let begin = cmd_begin_index as usize;
    let num = num_cmds as usize;
    if begin > runtime_cmd_infos.len() || num > runtime_cmd_infos.len() - begin {
        return Err(RecordError::BatchOutOfRange);
    }
    let ghost batch = runtime_cmd_infos@.subrange(begin as int, begin + num);
    let mut ids: Vec<u32> = Vec::new();
    let mut i: usize = 0;
    while i < num
        invariant
            i <= num,
            begin + num <= runtime_cmd_infos.len(),
            begin == cmd_begin_index,
            num == num_cmds,
            batch == runtime_cmd_infos@.subrange(begin as int, begin + num),
            spec_all_known(batch.take(i as int), cmd_count as nat),
            ids@ == spec_node_ids(batch.take(i as int)),
        decreases num - i,
    {
        let info = runtime_cmd_infos[begin + i];
        let ghost prefix = batch.take(i as int + 1);
        assert(prefix.drop_last() =~= batch.take(i as int));
        assert(prefix.last() == info);
        if !info.is_transition {
            if info.cmd_id as usize >= cmd_count {
                assert(!batch[i as int].is_transition && batch[i as int].cmd_id >= cmd_count);
                assert(!spec_all_known(batch, cmd_count as nat));
                return Err(RecordError::UnknownCommand);
            }
            ids.push(info.cmd_id);
        }
        assert forall|k: int| 0 <= k < prefix.len() && !(#[trigger] prefix[k]).is_transition implies prefix[k].cmd_id
            < cmd_count by {
            if k < i {
                assert(batch.take(i as int)[k] == prefix[k]);
            }
        }
        i = i + 1;
    }
    assert(batch.take(i as int) =~= batch);
    Ok(ids)
}

} // verus!
