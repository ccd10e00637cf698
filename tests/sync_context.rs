use sdf_sculpt::sync::{
    MemBarrierBits, SynchronizationContext, ALL_BARRIER_BITS, COMMAND_BARRIER_BIT,
    SHADER_IMAGE_ACCESS_BARRIER_BIT, SHADER_STORAGE_BARRIER_BIT,
};

#[test]
fn sync_clears_only_requested_kinds() {
    let mut ctx = SynchronizationContext::new();
    let a = MemBarrierBits::shader_storage();
    let b = MemBarrierBits::command();
    ctx.dirty(a.union(b));
    assert_eq!(ctx.sync(a), Some(MemBarrierBits(SHADER_STORAGE_BARRIER_BIT)));
    assert_eq!(ctx.sync(a), None);
    assert_eq!(ctx.sync(b), Some(MemBarrierBits(COMMAND_BARRIER_BIT)));
    assert_eq!(ctx.sync(b), None);
}

#[test]
fn sync_issues_only_the_outstanding_intersection() {
    let mut ctx = SynchronizationContext::new();
    ctx.dirty(MemBarrierBits::shader_image_access());
    let both = MemBarrierBits::shader_image_access().union(MemBarrierBits::shader_storage());
    assert_eq!(ctx.sync(both), Some(MemBarrierBits(SHADER_IMAGE_ACCESS_BARRIER_BIT)));
    assert_eq!(ctx.sync(MemBarrierBits::all()), None);
}

#[test]
fn sync_on_clean_context_issues_nothing() {
    let mut ctx = SynchronizationContext::new();
    assert_eq!(ctx.sync(MemBarrierBits::all()), None);
}

#[test]
fn force_sync_always_issues() {
    let mut ctx = SynchronizationContext::new();
    let bu = MemBarrierBits::buffer_update();
    assert_eq!(ctx.force_sync(bu), Some(bu));
    assert_eq!(ctx.force_sync(bu), Some(bu));
    assert_eq!(ctx.sync(bu), None);
    assert_eq!(ctx.force_sync(MemBarrierBits(0)), None);
}

#[test]
fn barrier_kinds_have_gl_values() {
    assert_eq!(MemBarrierBits::shader_storage().bit_field(), 0x2000);
    assert_eq!(MemBarrierBits::shader_image_access().bit_field(), 0x20);
    assert_eq!(MemBarrierBits::command().bit_field(), 0x40);
    assert_eq!(MemBarrierBits::buffer_update().bit_field(), 0x200);
    assert_eq!(MemBarrierBits::all().bit_field(), ALL_BARRIER_BITS);
}
