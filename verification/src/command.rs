//! The command builder: renders `add` and `remove` command lines for the
//! control file, suppressing every parameter that equals its default.
//!
//! The `add` command starts with `add id=<id>` and then appends
//! `,<key>=<value>` for each parameter that differs from its default, in a
//! fixed order: capacity, zone size, zone capacity, conventional zones,
//! base directory, queue count, queue depth, and last the `,buffered` flag.
//! The `remove` command is always exactly `remove id=<id>`.

use vstd::prelude::*;
use vstd::string::StringExecFns;

use crate::context::DEFAULT_CAPACITY;
use crate::context::DEFAULT_NR_CONV;
use crate::context::DEFAULT_NR_QUEUES;
use crate::context::DEFAULT_QUEUE_DEPTH;
use crate::context::DEFAULT_ZONE_SIZE;
use crate::context::ZLoopCtrlContext;
use crate::context::default_base_dir;
use crate::decimal::append_dec_i32;
use crate::decimal::int_digits;
use crate::error::ZloopError;
use crate::strutil::str_equal;

verus! {

/// One integer field of the add command: nothing at its default, the key
/// and the value otherwise.
pub open spec fn i32_field_segment(key: Seq<char>, value: int, dflt: int) -> Seq<char> {
    if value == dflt {
        Seq::empty()
    } else {
        key + int_digits(value)
    }
}

/// The capacity field of the add command: empty at the default.
pub open spec fn capacity_segment(capacity: int) -> Seq<char> {
    i32_field_segment(",capacity_mb="@, capacity, DEFAULT_CAPACITY as int)
}

/// The zone-size field of the add command: empty at the default.
pub open spec fn zone_size_segment(zone_size: int) -> Seq<char> {
    i32_field_segment(",zone_size_mb="@, zone_size, DEFAULT_ZONE_SIZE as int)
}

/// The zone-capacity field of the add command: empty at the default.
pub open spec fn zone_capacity_segment(zone_capacity: int) -> Seq<char> {
    i32_field_segment(",zone_capacity_mb="@, zone_capacity, DEFAULT_ZONE_SIZE as int)
}

/// The conventional-zones field of the add command: empty at the default.
pub open spec fn conv_zones_segment(nr_conv: int) -> Seq<char> {
    i32_field_segment(",conv_zones="@, nr_conv, DEFAULT_NR_CONV as int)
}

/// The base-directory field of the add command: empty at the default.
pub open spec fn base_dir_segment(base_dir: Seq<char>) -> Seq<char> {
    if base_dir == default_base_dir() {
        Seq::empty()
    } else {
        ",base_dir="@ + base_dir
    }
}

/// The queue-count field of the add command: empty at the default.
pub open spec fn nr_queues_segment(nr_queues: int) -> Seq<char> {
    i32_field_segment(",nr_queues="@, nr_queues, DEFAULT_NR_QUEUES as int)
}

/// The queue-depth field of the add command: empty at the default.
pub open spec fn queue_depth_segment(queue_depth: int) -> Seq<char> {
    i32_field_segment(",queue_depth="@, queue_depth, DEFAULT_QUEUE_DEPTH as int)
}

/// The buffered-I/O flag of the add command: present only when set.
pub open spec fn buffered_segment(buffered: bool) -> Seq<char> {
    if buffered {
        ",buffered"@
    } else {
        Seq::empty()
    }
}

/// The whole add command: the unconditional id, then every
/// differing-from-default field in the fixed order.
pub open spec fn add_command_spec(ctx: ZLoopCtrlContext) -> Seq<char> {
    "add id="@ + int_digits(ctx.id as int) + capacity_segment(ctx.capacity as int)
        + zone_size_segment(ctx.zone_size as int) + zone_capacity_segment(
        ctx.zone_capacity as int,
    ) + conv_zones_segment(ctx.nr_conv as int) + base_dir_segment(ctx.base_dir@)
        + nr_queues_segment(ctx.nr_queues as int) + queue_depth_segment(ctx.queue_depth as int)
        + buffered_segment(ctx.buffered)
}

/// The whole remove command: only the id.
pub open spec fn del_command_spec(id: int) -> Seq<char> {
    "remove id="@ + int_digits(id)
}

/// The staging directory that must exist before an `add`:
/// `<base_dir>/<id>`.
pub open spec fn staging_path_spec(ctx: ZLoopCtrlContext) -> Seq<char> {
    ctx.base_dir@ + "/"@ + int_digits(ctx.id as int)
}

/// Appends one integer field of the table: the key and the value when the
/// value differs from its default, nothing otherwise.
fn append_i32_field(s: &mut String, key: &str, value: i32, dflt: i32)
    ensures
        final(s)@ == old(s)@ + i32_field_segment(key@, value as int, dflt as int),
{
    if value != dflt {
        s.append(key);
        append_dec_i32(s, value);
        proof {
            assert(s@ =~= old(s)@ + i32_field_segment(key@, value as int, dflt as int));
        }
    } else {
        proof {
            assert(s@ =~= old(s)@ + i32_field_segment(key@, value as int, dflt as int));
        }
    }
}

/// Renders the staging path `<base_dir>/<id>` of `ctx`.
pub fn staging_path(ctx: &ZLoopCtrlContext) -> (p: String)
    ensures
        p@ == staging_path_spec(*ctx),
{
    let mut p = ctx.base_dir.clone();
    p.append("/");
    append_dec_i32(&mut p, ctx.id);
    proof {
        assert(p@ =~= staging_path_spec(*ctx));
    }
    p
}

/// Decides the staging precondition of an `add`: given whether the staging
/// directory `<base_dir>/<id>` exists, accepts or reports it missing with
/// the path that was expected.
pub fn check_zloop_path(ctx: &ZLoopCtrlContext, staging_exists: bool) -> (r: Result<
    (),
    ZloopError,
>)
    ensures
        r is Ok <==> staging_exists,
        !staging_exists ==> (r matches Err(ZloopError::StagingPathMissing(p)) && p@
            == staging_path_spec(*ctx)),
{
    if staging_exists {
        Ok(())
    } else {
        Err(ZloopError::StagingPathMissing(staging_path(ctx)))
    }
}

/// Renders the add command for `ctx`, unconditionally.
pub fn format_add_command(ctx: &ZLoopCtrlContext) -> (s: String)
    ensures
        s@ == add_command_spec(*ctx),
{
    let mut s = String::new();
    s.append("add id=");
    append_dec_i32(&mut s, ctx.id);
    proof {
        assert(s@ =~= "add id="@ + int_digits(ctx.id as int));
    }
    append_i32_field(&mut s, ",capacity_mb=", ctx.capacity, DEFAULT_CAPACITY);
    append_i32_field(&mut s, ",zone_size_mb=", ctx.zone_size, DEFAULT_ZONE_SIZE);
    append_i32_field(&mut s, ",zone_capacity_mb=", ctx.zone_capacity, DEFAULT_ZONE_SIZE);
    append_i32_field(&mut s, ",conv_zones=", ctx.nr_conv, DEFAULT_NR_CONV);
    let ghost before_base_dir = s@;
    if !str_equal(ctx.base_dir.as_str(), "/var/local/zloop") {
        s.append(",base_dir=");
        s.append(ctx.base_dir.as_str());
    }
    proof {
        assert(s@ =~= before_base_dir + base_dir_segment(ctx.base_dir@));
    }
    append_i32_field(&mut s, ",nr_queues=", ctx.nr_queues, DEFAULT_NR_QUEUES);
    append_i32_field(&mut s, ",queue_depth=", ctx.queue_depth, DEFAULT_QUEUE_DEPTH);
    let ghost before_buffered = s@;
    if ctx.buffered {
        s.append(",buffered");
    }
    proof {
        assert(s@ =~= before_buffered + buffered_segment(ctx.buffered));
        assert(s@ == add_command_spec(*ctx));
    }
    s
}

/// Builds the add command for `ctx` once the staging precondition is
/// settled: with the staging directory present the exact command comes
/// back, without it the `StagingPathMissing` error does, carrying the
/// path that was expected, and no command is built.
pub fn build_add_command(ctx: &ZLoopCtrlContext, staging_exists: bool) -> (r: Result<
    String,
    ZloopError,
>)
    ensures
        staging_exists ==> (r matches Ok(s) && s@ == add_command_spec(*ctx)),
        !staging_exists ==> (r matches Err(ZloopError::StagingPathMissing(p)) && p@
            == staging_path_spec(*ctx)),
{
    match check_zloop_path(ctx, staging_exists) {
        Ok(()) => Ok(format_add_command(ctx)),
        Err(e) => Err(e),
    }
}

/// Renders the remove command for `id`: always exactly `remove id=<id>`,
/// for any id, with no optional fields and no range validation.
pub fn build_del_command(id: i32) -> (s: String)
    ensures
        s@ == del_command_spec(id as int),
{
    let mut s = String::new();
    s.append("remove id=");
    append_dec_i32(&mut s, id);
    proof {
        assert(s@ =~= del_command_spec(id as int));
    }
    s
}

} // verus!
