//! Handing data to an audio worklet while its node is made.
//!
//! The data travels as the address of a leaked allocation in a property of the node's options. The
//! constructor of the processor takes it from there; if no node comes about, the data has to be
//! taken back.
use vstd::prelude::*;

verus! {

/// The property of the options that holds the address.
pub const DATA_PROPERTY_NAME: &'static str = "__web_thread_data";

/// What has to be done to make a node.
#[derive(Debug, Clone, Copy, PartialEq, Eq, Structural)]
pub enum NodeAction {
    /// Make empty options.
    CreateOptions,
    /// Store the address in the options.
    StoreData(u32),
    /// Construct the node with the options.
    Construct,
    /// Delete the address from the options.
    DeleteData,
}

/// Where the making of a node is. Each phase knows the address of the data.
#[derive(Debug, Clone, Copy, PartialEq, Eq, Structural)]
pub enum NodePhase {
    /// Nothing has been done; whether the caller has given options.
    New { data: u32, has_options: bool },
    /// There are options.
    Prepared { data: u32 },
    /// The options hold the address.
    Stored { data: u32 },
    /// The node has been tried.
    Tried { data: u32 },
    /// The options are as they were; whether there is a node.
    Cleaned { data: u32, constructed: bool },
}

/// Where a step leaves the making of a node.
#[derive(Debug, Clone, Copy, PartialEq, Eq)]
pub enum NodeProgress {
    /// This has to be done, and then the next step taken.
    Do(NodePhase, NodeAction),
    /// There is a node, and the data is its processor's; or there is none, and the data at this
    /// address is to be taken back.
    Done(Result<(), u32>),
}

/// Whether a context has a registered thread, by what its property says.
pub fn is_registered(registered: Option<bool>) -> (r: bool)
    ensures
        r == (registered == Some(true)),
{
    match registered {
        Some(registered) => registered,
        None => false,
    }
}

/// The step that follows a phase, told whether what the last one asked for has succeeded.
pub open spec fn node_step(phase: NodePhase, succeeded: bool) -> NodeProgress {
    match phase {
        NodePhase::New { data, has_options } => if has_options {
            NodeProgress::Do(NodePhase::Stored { data }, NodeAction::StoreData(data))
        } else {
            NodeProgress::Do(NodePhase::Prepared { data }, NodeAction::CreateOptions)
        },
        NodePhase::Prepared { data } => NodeProgress::Do(
            NodePhase::Stored { data },
            NodeAction::StoreData(data),
        ),
        NodePhase::Stored { data } => NodeProgress::Do(
            NodePhase::Tried { data },
            NodeAction::Construct,
        ),
        NodePhase::Tried { data } => NodeProgress::Do(
            NodePhase::Cleaned { data, constructed: succeeded },
            NodeAction::DeleteData,
        ),
        NodePhase::Cleaned { data, constructed } => NodeProgress::Done(
            if constructed {
                Ok(())
            } else {
                Err(data)
            },
        ),
    }
}

/// A step of making a node: options are made if none are given, the address is stored in them, the
/// node is tried, the address is deleted whatever came of that, and without a node the data is
/// taken back.
pub fn audio_worklet_node(phase: NodePhase, succeeded: bool) -> (r: NodeProgress)
    ensures
        r == node_step(phase, succeeded),
{
    match phase {
        NodePhase::New { data, has_options: true } => NodeProgress::Do(
            NodePhase::Stored { data },
            NodeAction::StoreData(data),
        ),
        NodePhase::New { data, has_options: false } => NodeProgress::Do(
            NodePhase::Prepared { data },
            NodeAction::CreateOptions,
        ),
        NodePhase::Prepared { data } => NodeProgress::Do(
            NodePhase::Stored { data },
            NodeAction::StoreData(data),
        ),
        NodePhase::Stored { data } => NodeProgress::Do(
            NodePhase::Tried { data },
            NodeAction::Construct,
        ),
        NodePhase::Tried { data } => NodeProgress::Do(
            NodePhase::Cleaned { data, constructed: succeeded },
            NodeAction::DeleteData,
        ),
        NodePhase::Cleaned { data, constructed: true } => NodeProgress::Done(Ok(())),
        NodePhase::Cleaned { data, constructed: false } => NodeProgress::Done(Err(data)),
    }
}

/// What is done from a phase on, and what comes of it, if `constructed` says whether the node can
/// be constructed.
pub open spec fn node_run(phase: NodePhase, constructed: bool) -> (Seq<NodeAction>, Result<(), u32>)
    decreases
            match phase {
                NodePhase::New { .. } => 4int,
                NodePhase::Prepared { .. } => 3,
                NodePhase::Stored { .. } => 2,
                NodePhase::Tried { .. } => 1,
                NodePhase::Cleaned { .. } => 0,
            },
{
    match node_step(phase, constructed) {
        NodeProgress::Do(next, action) => {
            let (actions, result) = node_run(next, constructed);
            (seq![action] + actions, result)
        },
        NodeProgress::Done(result) => (Seq::empty(), result),
    }
}

/// The options are left as they were, whether or not there is a node: the address is stored once,
/// before the node is tried, and deleted once, right after. Without a node exactly the data that
/// was given comes back.
pub proof fn law_options_are_cleaned_and_data_is_kept(
    data: u32,
    has_options: bool,
    constructed: bool,
)
    ensures
        ({
            let stored = seq![
                NodeAction::StoreData(data),
                NodeAction::Construct,
                NodeAction::DeleteData,
            ];
            let (actions, result) = node_run(NodePhase::New { data, has_options }, constructed);
            &&& actions =~= if has_options {
                stored
            } else {
                seq![NodeAction::CreateOptions] + stored
            }
            &&& result == if constructed {
                Ok::<(), u32>(())
            } else {
                Err(data)
            }
        }),
{
    reveal_with_fuel(node_run, 6);
}

} // verus!
