//! The device-creation parameter set and its documented defaults.

use vstd::prelude::*;

verus! {

/// Default capacity of a new device, in MB.
pub const DEFAULT_CAPACITY: i32 = 16384;

/// Default zone size (and zone capacity) of a new device, in MB.
pub const DEFAULT_ZONE_SIZE: i32 = 256;

/// Default depth of each I/O queue.
pub const DEFAULT_QUEUE_DEPTH: i32 = 128;

/// Default number of I/O queues. The suppression table treats 0 as the
/// default, so a queue count is emitted only when one was set explicitly.
pub const DEFAULT_NR_QUEUES: i32 = 0;

/// Default number of conventional zones.
pub const DEFAULT_NR_CONV: i32 = 0;

/// Which subcommand this invocation runs.
#[derive(PartialEq, Eq, Structural, Debug, Clone, Copy)]
#[allow(non_camel_case_types)]
pub enum ZLoopCtlCommand {
    LIST,
    ADD,
    DEL,
}

/// The full parameter set of one invocation: the subcommand, the debug flag,
/// and the device parameters used by `add` and `del`.
///
/// Built fresh per invocation from command-line input merged with the
/// defaults above, and immutable afterwards.
#[derive(Debug)]
pub struct ZLoopCtrlContext {
    pub id: i32,
    pub debug: bool,
    pub command: ZLoopCtlCommand,
    pub capacity: i32,
    pub zone_size: i32,
    pub zone_capacity: i32,
    pub nr_conv: i32,
    pub base_dir: String,
    pub nr_queues: i32,
    pub queue_depth: i32,
    pub buffered: bool,
}

/// The default base directory for backing files, as a sequence of characters.
pub open spec fn default_base_dir() -> Seq<char> {
    "/var/local/zloop"@
}

/// Holds when every optional device parameter of `ctx` equals its default.
pub open spec fn all_defaults(ctx: ZLoopCtrlContext) -> bool {
    &&& ctx.capacity == DEFAULT_CAPACITY
    &&& ctx.zone_size == DEFAULT_ZONE_SIZE
    &&& ctx.zone_capacity == DEFAULT_ZONE_SIZE
    &&& ctx.nr_conv == DEFAULT_NR_CONV
    &&& ctx.base_dir@ == default_base_dir()
    &&& ctx.nr_queues == DEFAULT_NR_QUEUES
    &&& ctx.queue_depth == DEFAULT_QUEUE_DEPTH
    &&& !ctx.buffered
}

impl ZLoopCtrlContext {
    /// A context with id 0, the `LIST` subcommand, and every device
    /// parameter at its default.
    pub fn new() -> (ctx: ZLoopCtrlContext)
        ensures
            ctx.id == 0,
            !ctx.debug,
            ctx.command == ZLoopCtlCommand::LIST,
            all_defaults(ctx),
            !ctx.buffered,
    {
        ZLoopCtrlContext {
            id: 0,
            debug: false,
            command: ZLoopCtlCommand::LIST,
            capacity: DEFAULT_CAPACITY,
            zone_size: DEFAULT_ZONE_SIZE,
            zone_capacity: DEFAULT_ZONE_SIZE,
            nr_conv: DEFAULT_NR_CONV,
            base_dir: default_base_dir_string(),
            nr_queues: DEFAULT_NR_QUEUES,
            queue_depth: DEFAULT_QUEUE_DEPTH,
            buffered: false,
        }
    }
}

/// The default base directory as an owned string.
pub fn default_base_dir_string() -> (s: String)
    ensures
        s@ == default_base_dir(),
{
    let s = "/var/local/zloop";
    s.to_owned()
}

} // verus!
