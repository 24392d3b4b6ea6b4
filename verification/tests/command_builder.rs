//! Tests of the command builder: default suppression, field order, the
//! staging precondition, and the remove command.

use zloopctl::context::ZLoopCtlCommand;
use zloopctl::context::ZLoopCtrlContext;
use zloopctl::error::ZloopError;

fn ctx_with_id(id: i32) -> ZLoopCtrlContext {
    let mut ctx = ZLoopCtrlContext::new();
    ctx.id = id;
    ctx
}

#[test]
fn new_context_has_documented_defaults() {
    let ctx = ZLoopCtrlContext::new();
    assert_eq!(ctx.id, 0);
    assert!(!ctx.debug);
    assert_eq!(ctx.command, ZLoopCtlCommand::LIST);
    assert_eq!(ctx.capacity, 16384);
    assert_eq!(ctx.zone_size, 256);
    assert_eq!(ctx.zone_capacity, 256);
    assert_eq!(ctx.nr_conv, 0);
    assert_eq!(ctx.base_dir, "/var/local/zloop");
    assert_eq!(ctx.nr_queues, 0);
    assert_eq!(ctx.queue_depth, 128);
    assert!(!ctx.buffered);
}

#[test]
fn add_command_all_defaults_is_bare_id() {
    let ctx = ctx_with_id(7);
    assert_eq!(zloopctl::format_add_command(&ctx), "add id=7");
}

#[test]
fn add_command_capacity_only() {
    let mut ctx = ctx_with_id(1);
    ctx.capacity = 1000;
    assert_eq!(zloopctl::format_add_command(&ctx), "add id=1,capacity_mb=1000");
}

#[test]
fn add_command_zone_size_only() {
    let mut ctx = ctx_with_id(1);
    ctx.zone_size = 64;
    assert_eq!(zloopctl::format_add_command(&ctx), "add id=1,zone_size_mb=64");
}

#[test]
fn add_command_zone_capacity_only() {
    let mut ctx = ctx_with_id(1);
    ctx.zone_capacity = 128;
    assert_eq!(zloopctl::format_add_command(&ctx), "add id=1,zone_capacity_mb=128");
}

#[test]
fn add_command_conv_zones_only() {
    let mut ctx = ctx_with_id(1);
    ctx.nr_conv = 4;
    assert_eq!(zloopctl::format_add_command(&ctx), "add id=1,conv_zones=4");
}

#[test]
fn add_command_base_dir_only() {
    let mut ctx = ctx_with_id(1);
    ctx.base_dir = String::from("/tmp/zloop");
    assert_eq!(zloopctl::format_add_command(&ctx), "add id=1,base_dir=/tmp/zloop");
}

#[test]
fn add_command_nr_queues_only() {
    let mut ctx = ctx_with_id(1);
    ctx.nr_queues = 2;
    assert_eq!(zloopctl::format_add_command(&ctx), "add id=1,nr_queues=2");
}

#[test]
fn add_command_queue_depth_only() {
    let mut ctx = ctx_with_id(1);
    ctx.queue_depth = 64;
    assert_eq!(zloopctl::format_add_command(&ctx), "add id=1,queue_depth=64");
}

#[test]
fn add_command_buffered_only() {
    let mut ctx = ctx_with_id(2);
    ctx.buffered = true;
    assert_eq!(zloopctl::format_add_command(&ctx), "add id=2,buffered");
}

#[test]
fn add_command_all_fields_in_fixed_order() {
    let mut ctx = ctx_with_id(3);
    ctx.capacity = 2048;
    ctx.zone_size = 64;
    ctx.zone_capacity = 32;
    ctx.nr_conv = 2;
    ctx.base_dir = String::from("/mnt/z");
    ctx.nr_queues = 4;
    ctx.queue_depth = 16;
    ctx.buffered = true;
    assert_eq!(
        zloopctl::format_add_command(&ctx),
        "add id=3,capacity_mb=2048,zone_size_mb=64,zone_capacity_mb=32,conv_zones=2,base_dir=/mnt/z,nr_queues=4,queue_depth=16,buffered"
    );
}

#[test]
fn add_command_base_dir_passes_through_unescaped() {
    let mut ctx = ctx_with_id(1);
    ctx.base_dir = String::from("/a,b");
    assert_eq!(zloopctl::format_add_command(&ctx), "add id=1,base_dir=/a,b");
}

#[test]
fn add_command_negative_values_pass_through() {
    let mut ctx = ctx_with_id(1);
    ctx.capacity = -1;
    assert_eq!(zloopctl::format_add_command(&ctx), "add id=1,capacity_mb=-1");
}

#[test]
fn build_add_command_with_staging_present() {
    let ctx = ctx_with_id(7);
    let r = zloopctl::build_add_command(&ctx, true);
    match r {
        Ok(s) => assert_eq!(s, "add id=7"),
        Err(_) => panic!("expected the command"),
    }
}

#[test]
fn build_add_command_without_staging_directory() {
    let ctx = ctx_with_id(5);
    let r = zloopctl::build_add_command(&ctx, false);
    match r {
        Ok(_) => panic!("expected the staging error"),
        Err(ZloopError::StagingPathMissing(p)) => assert_eq!(p, "/var/local/zloop/5"),
        Err(_) => panic!("expected the staging error"),
    }
}

#[test]
fn staging_path_joins_base_dir_and_id() {
    let mut ctx = ctx_with_id(5);
    assert_eq!(zloopctl::staging_path(&ctx), "/var/local/zloop/5");
    ctx.base_dir = String::from("/mnt/z");
    ctx.id = 12;
    assert_eq!(zloopctl::staging_path(&ctx), "/mnt/z/12");
}

#[test]
fn check_zloop_path_accepts_and_rejects() {
    let ctx = ctx_with_id(5);
    assert!(zloopctl::check_zloop_path(&ctx, true).is_ok());
    match zloopctl::check_zloop_path(&ctx, false) {
        Err(ZloopError::StagingPathMissing(p)) => assert_eq!(p, "/var/local/zloop/5"),
        _ => panic!("expected the staging error"),
    }
}

#[test]
fn staging_error_message_carries_the_path() {
    let ctx = ctx_with_id(5);
    let e = match zloopctl::build_add_command(&ctx, false) {
        Err(e) => e,
        Ok(_) => panic!("expected the staging error"),
    };
    assert_eq!(e.message(), "zloop path /var/local/zloop/5 does not exist");
}

#[test]
fn del_command_is_exactly_remove_id() {
    assert_eq!(zloopctl::build_del_command(5), "remove id=5");
}

#[test]
fn del_command_zero_id() {
    assert_eq!(zloopctl::build_del_command(0), "remove id=0");
}

#[test]
fn del_command_negative_id() {
    assert_eq!(zloopctl::build_del_command(-3), "remove id=-3");
}

#[test]
fn del_command_extreme_ids() {
    assert_eq!(zloopctl::build_del_command(i32::MAX), "remove id=2147483647");
    assert_eq!(zloopctl::build_del_command(i32::MIN), "remove id=-2147483648");
}
