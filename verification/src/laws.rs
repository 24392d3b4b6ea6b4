//! The stated laws of the command builder and the scanner.

use vstd::prelude::*;

use crate::command::add_command_spec;
use crate::command::base_dir_segment;
use crate::command::buffered_segment;
use crate::command::capacity_segment;
use crate::command::conv_zones_segment;
use crate::command::nr_queues_segment;
use crate::command::queue_depth_segment;
use crate::command::zone_capacity_segment;
use crate::command::zone_size_segment;
use crate::context::DEFAULT_CAPACITY;
use crate::context::DEFAULT_NR_CONV;
use crate::context::DEFAULT_NR_QUEUES;
use crate::context::DEFAULT_QUEUE_DEPTH;
use crate::context::DEFAULT_ZONE_SIZE;
use crate::context::ZLoopCtrlContext;
use crate::context::all_defaults;
use crate::context::default_base_dir;
use crate::decimal::dec_digits;
use crate::decimal::int_digits;
use crate::scan::DirEntryInfo;
use crate::scan::devices_of;

verus! {

/// A decimal rendering always has at least one digit.
pub proof fn lemma_dec_digits_nonempty(n: nat)
    ensures
        dec_digits(n).len() >= 1,
    decreases n,
{
    if n >= 10 {
        lemma_dec_digits_nonempty(n / 10);
    }
}

/// The rendering of a signed value is never empty.
pub proof fn lemma_int_digits_nonempty(n: int)
    ensures
        int_digits(n).len() >= 1,
{
    if n < 0 {
        lemma_dec_digits_nonempty((-n) as nat);
    } else {
        lemma_dec_digits_nonempty(n as nat);
    }
}

/// With every optional parameter at its default and buffered off, the add
/// command is exactly `add id=<id>`: nothing but the id is emitted.
pub proof fn lemma_add_command_all_defaults(ctx: ZLoopCtrlContext)
    requires
        all_defaults(ctx),
    ensures
        add_command_spec(ctx) == "add id="@ + int_digits(ctx.id as int),
{
    assert(add_command_spec(ctx) =~= "add id="@ + int_digits(ctx.id as int));
}

/// The add command is the concatenation, in the fixed field order, of the
/// unconditional `add id=<id>` and one segment per optional parameter;
/// each segment is empty exactly when its parameter equals its default,
/// and otherwise holds the field's key and value once.
pub proof fn lemma_add_command_field_order(ctx: ZLoopCtrlContext)
    ensures
        add_command_spec(ctx) == "add id="@ + int_digits(ctx.id as int) + capacity_segment(
            ctx.capacity as int,
        ) + zone_size_segment(ctx.zone_size as int) + zone_capacity_segment(
            ctx.zone_capacity as int,
        ) + conv_zones_segment(ctx.nr_conv as int) + base_dir_segment(ctx.base_dir@)
            + nr_queues_segment(ctx.nr_queues as int) + queue_depth_segment(ctx.queue_depth as int)
            + buffered_segment(ctx.buffered),
        capacity_segment(ctx.capacity as int) == Seq::<char>::empty() <==> ctx.capacity
            == DEFAULT_CAPACITY,
        ctx.capacity != DEFAULT_CAPACITY ==> capacity_segment(ctx.capacity as int)
            == ",capacity_mb="@ + int_digits(ctx.capacity as int),
        zone_size_segment(ctx.zone_size as int) == Seq::<char>::empty() <==> ctx.zone_size
            == DEFAULT_ZONE_SIZE,
        ctx.zone_size != DEFAULT_ZONE_SIZE ==> zone_size_segment(ctx.zone_size as int)
            == ",zone_size_mb="@ + int_digits(ctx.zone_size as int),
        zone_capacity_segment(ctx.zone_capacity as int) == Seq::<char>::empty()
            <==> ctx.zone_capacity == DEFAULT_ZONE_SIZE,
        ctx.zone_capacity != DEFAULT_ZONE_SIZE ==> zone_capacity_segment(ctx.zone_capacity as int)
            == ",zone_capacity_mb="@ + int_digits(ctx.zone_capacity as int),
        conv_zones_segment(ctx.nr_conv as int) == Seq::<char>::empty() <==> ctx.nr_conv
            == DEFAULT_NR_CONV,
        ctx.nr_conv != DEFAULT_NR_CONV ==> conv_zones_segment(ctx.nr_conv as int) == ",conv_zones="@
            + int_digits(ctx.nr_conv as int),
        base_dir_segment(ctx.base_dir@) == Seq::<char>::empty() <==> ctx.base_dir@
            == default_base_dir(),
        ctx.base_dir@ != default_base_dir() ==> base_dir_segment(ctx.base_dir@) == ",base_dir="@
            + ctx.base_dir@,
        nr_queues_segment(ctx.nr_queues as int) == Seq::<char>::empty() <==> ctx.nr_queues
            == DEFAULT_NR_QUEUES,
        ctx.nr_queues != DEFAULT_NR_QUEUES ==> nr_queues_segment(ctx.nr_queues as int)
            == ",nr_queues="@ + int_digits(ctx.nr_queues as int),
        queue_depth_segment(ctx.queue_depth as int) == Seq::<char>::empty() <==> ctx.queue_depth
            == DEFAULT_QUEUE_DEPTH,
        ctx.queue_depth != DEFAULT_QUEUE_DEPTH ==> queue_depth_segment(ctx.queue_depth as int)
            == ",queue_depth="@ + int_digits(ctx.queue_depth as int),
        buffered_segment(ctx.buffered) == Seq::<char>::empty() <==> !ctx.buffered,
        ctx.buffered ==> buffered_segment(ctx.buffered) == ",buffered"@,
{
    lemma_int_digits_nonempty(ctx.capacity as int);
    lemma_int_digits_nonempty(ctx.zone_size as int);
    lemma_int_digits_nonempty(ctx.zone_capacity as int);
    lemma_int_digits_nonempty(ctx.nr_conv as int);
    lemma_int_digits_nonempty(ctx.nr_queues as int);
    lemma_int_digits_nonempty(ctx.queue_depth as int);
    reveal_strlit(",base_dir=");
    reveal_strlit(",buffered");
}

/// Scanning the same directory contents twice yields the same device
/// list: the scanner is a function of the entries alone. Between two real
/// scans the directory itself may of course change, and the order of the
/// names follows the order of the listing.
pub proof fn lemma_scan_deterministic(a: Seq<DirEntryInfo>, b: Seq<DirEntryInfo>)
    requires
        a == b,
    ensures
        devices_of(a) == devices_of(b),
{
}

} // verus!
