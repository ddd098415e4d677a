//! Items, the polymorphic inventory model interface, and the process-wide
//! inventory context: the record of which inventory is currently on screen.

use crate::render::Renderer;
use crate::ui::Container;
use crate::window::WidgetPool;
use std::sync::Arc;
use vstd::prelude::*;

verus! {

/// An item's material: the pair of candidate texture identifiers it renders
/// with — the primary, and the fallback used when the primary is missing
/// from the loaded resource pack.
pub struct Material {
    pub primary_texture: String,
    pub fallback_texture: String,
}

impl Material {
    /// The two candidate texture identifiers, primary first.
    pub fn item_texture_locations(&self) -> (r: (String, String))
        ensures
            r.0 == self.primary_texture,
            r.1 == self.fallback_texture,
    {
        (self.primary_texture.clone(), self.fallback_texture.clone())
    }
}

/// The content of an occupied inventory slot.
pub struct Item {
    pub material: Material,
}

/// The record of which inventory is currently displayed: empty, or the
/// identifier of the inventory of the screen that activated last. There is no
/// stacking — the last writer wins.
#[derive(Clone, Copy)]
pub struct InventoryContext {
    current: Option<u64>,
}

impl InventoryContext {
    /// The recorded inventory identifier, if any.
    pub closed spec fn current(&self) -> Option<u64> {
        self.current
    }

    /// A fresh, empty context, as the process starts with.
    pub fn new() -> (r: InventoryContext)
        ensures
            r.current() is None,
    {
        InventoryContext { current: None }
    }

    /// A context already recording `id`.
    pub fn holding(id: u64) -> (r: InventoryContext)
        ensures
            r.current() == Some(id),
    {
        InventoryContext { current: Some(id) }
    }

    /// Record `id` as the inventory on screen; whatever was recorded before
    /// is dropped.
    pub fn set(&mut self, id: u64)
        ensures
            final(self).current() == Some(id),
    {
        self.current = Some(id);
    }

    /// Record that no inventory is on screen.
    pub fn clear(&mut self)
        ensures
            final(self).current() is None,
    {
        self.current = None;
    }

    /// The recorded inventory identifier, if any.
    pub fn get(&self) -> (r: Option<u64>)
        ensures
            r == self.current(),
    {
        self.current
    }
}

#[verifier::external_type_specification]
#[verifier::external_body]
#[verifier::reject_recursive_types(R)]
#[verifier::reject_recursive_types(T)]
pub struct ExRwLock<R, T: ?Sized>(parking_lot::lock_api::RwLock<R, T>);

#[verifier::external_type_specification]
#[verifier::external_body]
pub struct ExRawRwLock(parking_lot::RawRwLock);

/// The process-wide slot holding the [`InventoryContext`] behind a
/// read/write lock: screens publish to it on activation and deactivation,
/// and any subsystem holding a handle (input routing, the HUD) may read it
/// concurrently. Created once at process start; never destroyed, only
/// cleared.
///
/// The lock guards one store or load at a time; what a load returns depends
/// on the last store any thread made, so nothing relates a load to an earlier
/// store in the contracts here. The sequential semantics of the slot's value
/// live on [`InventoryContext`] itself.
pub struct SharedInventoryContext {
    cell: Arc<parking_lot::RwLock<InventoryContext>>,
}

impl SharedInventoryContext {
    /// Relies on parking_lot::RwLock::new: the fresh lock stores the value it
    /// is given.
    #[verifier::external_body]
    fn new_cell(ctx: InventoryContext) -> parking_lot::RwLock<InventoryContext> {
        parking_lot::RwLock::new(ctx)
    }

    /// A fresh slot, holding the empty context until a screen publishes to
    /// it.
    pub fn new() -> SharedInventoryContext {
        SharedInventoryContext { cell: Arc::new(Self::new_cell(InventoryContext::new())) }
    }

    /// Relies on Arc::clone: the new handle shares the same slot.
    #[verifier::external_body]
    pub fn share(&self) -> SharedInventoryContext {
        SharedInventoryContext { cell: Arc::clone(&self.cell) }
    }

    /// Relies on parking_lot::RwLock::write: takes the slot's write lock,
    /// replaces the stored context with `ctx`, and releases the lock.
    #[verifier::external_body]
    pub(crate) fn store(&self, ctx: InventoryContext) {
        *self.cell.write() = ctx;
    }

    /// Relies on parking_lot::RwLock::read: takes the slot's read lock and
    /// returns a copy of the stored context.
    #[verifier::external_body]
    fn load(&self) -> InventoryContext {
        *self.cell.read()
    }

    /// The identifier of the inventory currently displayed, if any: what the
    /// last writer stored. Concurrent writers may change the slot at any
    /// time, so no more is promised of the returned value.
    pub fn current(&self) -> Option<u64> {
        self.load().get()
    }
}

/// How many widgets one lifecycle call of an inventory model may create: the
/// container-handle headroom a screen secures before delegating to the model.
pub const WIDGET_BUDGET: u64 = 65536;

/// One lifecycle call an inventory model received from its hosting screen.
#[derive(Clone, Copy, PartialEq, Eq, Structural, Debug)]
pub enum LifecycleEvent {
    Init,
    Tick,
    Resize(u32, u32),
    Close,
}

/// A polymorphic inventory model (chest, player inventory, crafting table,
/// ...): the hosting screen delegates activation, per-frame ticks, viewport
/// resizes and deactivation to it, and the model builds and mutates its
/// widgets through the [`WidgetPool`] handed back to it. The hosting screen
/// owns the model exclusively for its lifetime and hands it back on request
/// (see `InventoryWindow::into_inventory`), so the same inventory can be
/// reused by a fresh screen instance on re-activation.
///
/// Every lifecycle hook appends the call it received to the model's event
/// history `events()`, so a screen's contract can state that the delegated
/// call reached the model, exactly once and with the given dimensions. An
/// implementation tracks the history in real state (as [`crate::models::RowInventory`]
/// does with its log) or in a `Ghost` field.
pub trait Inventory {
    /// The identity the inventory context records while this inventory is on
    /// screen; stable across the lifecycle calls.
    spec fn inv_id(&self) -> u64;

    /// The lifecycle calls this model has received, oldest first.
    spec fn events(&self) -> Seq<LifecycleEvent>;

    /// The identity as an executable value.
    fn id(&self) -> (r: u64)
        ensures
            r == self.inv_id(),
    ;

    /// Build the widgets for a fresh activation: allocate groups in `window`
    /// and draw into them. At most [`WIDGET_BUDGET`] widgets may be created.
    fn init(&mut self, renderer: &Renderer, ui_container: &mut Container, window: &mut WidgetPool)
        requires
            old(window).wf(),
            old(ui_container).wf(),
            old(ui_container).next_id_spec() + WIDGET_BUDGET <= u64::MAX,
        ensures
            final(self).inv_id() == old(self).inv_id(),
            final(self).events() == old(self).events().push(LifecycleEvent::Init),
            final(window).wf(),
            final(ui_container).wf(),
            final(ui_container).next_id_spec() <= old(ui_container).next_id_spec()
                + WIDGET_BUDGET,
    ;

    /// Per-frame mutation of the widgets while the screen is active. At most
    /// [`WIDGET_BUDGET`] widgets may be created.
    fn tick(&mut self, renderer: &Renderer, ui_container: &mut Container, window: &mut WidgetPool)
        requires
            old(window).wf(),
            old(ui_container).wf(),
            old(ui_container).next_id_spec() + WIDGET_BUDGET <= u64::MAX,
        ensures
            final(self).inv_id() == old(self).inv_id(),
            final(self).events() == old(self).events().push(LifecycleEvent::Tick),
            final(window).wf(),
            final(ui_container).wf(),
            final(ui_container).next_id_spec() <= old(ui_container).next_id_spec()
                + WIDGET_BUDGET,
    ;

    /// The viewport's safe drawing area changed to `width` by `height`. At
    /// most [`WIDGET_BUDGET`] widgets may be created.
    fn resize(
        &mut self,
        width: u32,
        height: u32,
        renderer: &Renderer,
        ui_container: &mut Container,
        window: &mut WidgetPool,
    )
        requires
            old(window).wf(),
            old(ui_container).wf(),
            old(ui_container).next_id_spec() + WIDGET_BUDGET <= u64::MAX,
        ensures
            final(self).inv_id() == old(self).inv_id(),
            final(self).events() == old(self).events().push(
                LifecycleEvent::Resize(width, height),
            ),
            final(window).wf(),
            final(ui_container).wf(),
            final(ui_container).next_id_spec() <= old(ui_container).next_id_spec()
                + WIDGET_BUDGET,
    ;

    /// Deactivation notice. Tearing the widgets down is the hosting screen's
    /// own job, after this call returns; the model only observes the pool.
    fn close(&mut self, window: &WidgetPool)
        ensures
            final(self).inv_id() == old(self).inv_id(),
            final(self).events() == old(self).events().push(LifecycleEvent::Close),
    ;
}

} // verus!
