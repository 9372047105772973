//! The activation context (app GUID and storage directory) shared by the
//! queue and the journal.
use vstd::prelude::*;
use crate::text::copy_string;

verus! {

/// The app GUID and the storage directory of the activation queue.
#[derive(Debug, Clone)]
pub struct ActivationContext {
    pub guid: String,
    pub storage_dir: String,
}

/// The context, once initialised.
#[derive(Debug)]
pub struct ContextSlot {
    ctx: Option<ActivationContext>,
}

impl ContextSlot {
    /// Whether the context was initialised.
    pub closed spec fn is_init(&self) -> bool {
        self.ctx is Some
    }

    /// The GUID of the context.
    pub closed spec fn guid_view(&self) -> Seq<char> {
        self.ctx.unwrap().guid@
    }

    /// The storage directory of the context.
    pub closed spec fn storage_dir_view(&self) -> Seq<char> {
        self.ctx.unwrap().storage_dir@
    }

    /// Whether the context was initialised.
    pub fn is_initialized(&self) -> (r: bool)
        ensures
            r == self.is_init(),
    {
        self.ctx.is_some()
    }
}

/// An uninitialised slot.
pub fn slot() -> (s: ContextSlot)
    ensures
        !s.is_init(),
{
    ContextSlot { ctx: None }
}

/// Initialises (or re-initialises) the context.
pub fn init_context(slot: &mut ContextSlot, guid: String, storage_dir: String)
    ensures
        final(slot).is_init(),
        final(slot).guid_view() == guid@,
        final(slot).storage_dir_view() == storage_dir@,
{
    slot.ctx = Some(ActivationContext { guid, storage_dir });
}

/// A copy of the context; it must have been initialised.
pub fn context(slot: &ContextSlot) -> (c: ActivationContext)
    requires
        slot.is_init(),
    ensures
        c.guid@ == slot.guid_view(),
        c.storage_dir@ == slot.storage_dir_view(),
{
    match &slot.ctx {
        Some(c) => ActivationContext {
            guid: copy_string(&c.guid),
            storage_dir: copy_string(&c.storage_dir),
        },
        None => ActivationContext { guid: String::new(), storage_dir: String::new() },
    }
}

} // verus!
