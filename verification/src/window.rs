//! The inventory screen: the widget pool owning the per-slot visual elements,
//! and the state machine gluing screen lifecycle, inventory context and
//! inventory model together.

use crate::inventory::{
    Inventory, InventoryContext, Item, LifecycleEvent, SharedInventoryContext, WIDGET_BUDGET,
};
use crate::render::{spec_resolved, resolve_texture, Renderer};
use crate::ui::{Container, HAttach, VAttach, WidgetKind};
use vstd::prelude::*;

verus! {

/// Each icon is drawn at `icon_scale * ICON_BASE_SIZE` pixels on each axis.
pub const ICON_BASE_SIZE: u64 = 16;

/// The per-slot widget pool of one screen instance: an ordered sequence of
/// groups of image-widget handles and a structurally parallel sequence of
/// groups of text-widget handles — index `i` of both names the same logical
/// region of the inventory grid. Emptied on deactivation; a fresh screen
/// starts with no groups.
pub struct WidgetPool {
    elements: Vec<Vec<u64>>,
    text_elements: Vec<Vec<u64>>,
}

spec fn groups_view(groups: &Vec<Vec<u64>>) -> Seq<Seq<u64>> {
    Seq::new(groups@.len() as nat, |i: int| groups@[i]@)
}

impl WidgetPool {
    /// The groups of image-widget handles.
    pub closed spec fn elements(&self) -> Seq<Seq<u64>> {
        groups_view(&self.elements)
    }

    /// The groups of text-widget handles.
    pub closed spec fn text_elements(&self) -> Seq<Seq<u64>> {
        groups_view(&self.text_elements)
    }

    /// Whether `id` lies in one of the groups.
    pub open spec fn handle_in(groups: Seq<Seq<u64>>, id: u64) -> bool {
        exists|i: int, j: int|
            0 <= i < groups.len() && 0 <= j < groups[i].len() && #[trigger] groups[i][j] == id
    }

    /// Whether the pool holds `id`, as an image or as a text handle.
    pub open spec fn contains_handle(&self, id: u64) -> bool {
        Self::handle_in(self.elements(), id) || Self::handle_in(self.text_elements(), id)
    }

    /// Structural parallelism: both collections always hold equally many
    /// groups.
    pub open spec fn wf(&self) -> bool {
        self.elements().len() == self.text_elements().len()
    }

    pub fn new() -> (r: WidgetPool)
        ensures
            r.wf(),
            r.elements().len() == 0,
            r.text_elements().len() == 0,
    {
        WidgetPool { elements: Vec::new(), text_elements: Vec::new() }
    }

    pub fn group_count(&self) -> (r: usize)
        ensures
            r == self.elements().len(),
    {
        self.elements.len()
    }

    pub fn text_group_count(&self) -> (r: usize)
        ensures
            r == self.text_elements().len(),
    {
        self.text_elements.len()
    }

    pub fn group_len(&self, i: usize) -> (r: usize)
        requires
            i < self.elements().len(),
        ensures
            r == self.elements()[i as int].len(),
    {
        self.elements[i].len()
    }

    pub fn text_group_len(&self, i: usize) -> (r: usize)
        requires
            i < self.text_elements().len(),
        ensures
            r == self.text_elements()[i as int].len(),
    {
        self.text_elements[i].len()
    }

    pub fn handle_at(&self, i: usize, j: usize) -> (r: u64)
        requires
            i < self.elements().len(),
            j < self.elements()[i as int].len(),
        ensures
            r == self.elements()[i as int][j as int],
    {
        self.elements[i][j]
    }

    /// Allocate one fresh, empty group in both collections — the
    /// group-allocation operation an inventory model performs before drawing
    /// into the group; returns the new group's index.
    pub fn alloc_group(&mut self) -> (idx: usize)
        requires
            old(self).wf(),
        ensures
            final(self).wf(),
            idx == old(self).elements().len(),
            final(self).elements().len() == old(self).elements().len() + 1,
            final(self).text_elements().len() == old(self).text_elements().len() + 1,
            forall|j: int|
                0 <= j < old(self).elements().len() ==> final(self).elements()[j] == old(
                    self,
                ).elements()[j],
            forall|j: int|
                0 <= j < old(self).text_elements().len() ==> final(self).text_elements()[j] == old(
                    self,
                ).text_elements()[j],
            final(self).elements()[idx as int] == Seq::<u64>::empty(),
            final(self).text_elements()[idx as int] == Seq::<u64>::empty(),
    {
        let idx = self.elements.len();
        self.elements.push(Vec::new());
        self.text_elements.push(Vec::new());
        idx
    }

    /// Create one image widget for `item` — sized to the HUD icon scale,
    /// centered at `(x, y)`, textured through icon resolution — register it
    /// in the shared container, and append its handle to element group
    /// `elements_idx`. The group must have been allocated before.
    pub fn draw_item(
        &mut self,
        item: &Item,
        x: i32,
        y: i32,
        elements_idx: usize,
        ui_container: &mut Container,
        renderer: &Renderer,
    )
        requires
            old(self).wf(),
            elements_idx < old(self).elements().len(),
            old(ui_container).wf(),
            old(ui_container).next_id_spec() < u64::MAX,
        ensures
            final(self).wf(),
            final(ui_container).wf(),
            final(ui_container).next_id_spec() == old(ui_container).next_id_spec() + 1,
            final(self).elements().len() == old(self).elements().len(),
            final(self).text_elements() == old(self).text_elements(),
            forall|j: int|
                0 <= j < old(self).elements().len() && j != elements_idx
                    ==> final(self).elements()[j] == old(self).elements()[j],
            final(self).elements()[elements_idx as int] == old(self).elements()[
                elements_idx as int
            ].push(old(ui_container).next_id_spec()),
            final(ui_container).widgets().len() == old(ui_container).widgets().len() + 1,
            forall|j: int|
                0 <= j < old(ui_container).widgets().len() ==> final(ui_container).widgets()[j]
                    == old(ui_container).widgets()[j],
            forall|j: u64|
                final(ui_container).holds(j) <==> (old(ui_container).holds(j) || j == old(
                    ui_container,
                ).next_id_spec()),
            final(ui_container).widgets().last().id == old(ui_container).next_id_spec(),
            final(ui_container).widgets().last().kind == WidgetKind::Image,
            final(ui_container).widgets().last().x == x,
            final(ui_container).widgets().last().y == y,
            final(ui_container).widgets().last().width == renderer.icon_scale as u64
                * ICON_BASE_SIZE,
            final(ui_container).widgets().last().height == renderer.icon_scale as u64
                * ICON_BASE_SIZE,
            final(ui_container).widgets().last().v_attach == VAttach::Middle,
            final(ui_container).widgets().last().h_attach == HAttach::Center,
            final(ui_container).widgets().last().content@ == spec_resolved(
                renderer.textures.entries(),
                item.material.primary_texture@,
                item.material.fallback_texture@,
            ),
    {
        let icon_scale = renderer.icon_scale;
        let textures = item.material.item_texture_locations();
        let texture = resolve_texture(&renderer.textures, &textures.0, &textures.1);
        let size = (icon_scale as u64) * ICON_BASE_SIZE;
        let id = ui_container.add_image(
            x,
            y,
            size,
            size,
            VAttach::Middle,
            HAttach::Center,
            texture.clone(),
        );
        self.elements[elements_idx].push(id);
    }

    /// Create one text widget, register it in the shared container, and
    /// append its handle to text group `elements_idx`. The group must have
    /// been allocated before.
    pub fn draw_text(
        &mut self,
        text: String,
        x: i32,
        y: i32,
        width: u64,
        height: u64,
        elements_idx: usize,
        ui_container: &mut Container,
    )
        requires
            old(self).wf(),
            elements_idx < old(self).text_elements().len(),
            old(ui_container).wf(),
            old(ui_container).next_id_spec() < u64::MAX,
        ensures
            final(self).wf(),
            final(ui_container).wf(),
            final(ui_container).next_id_spec() == old(ui_container).next_id_spec() + 1,
            final(self).elements() == old(self).elements(),
            final(self).text_elements().len() == old(self).text_elements().len(),
            forall|j: int|
                0 <= j < old(self).text_elements().len() && j != elements_idx
                    ==> final(self).text_elements()[j] == old(self).text_elements()[j],
            final(self).text_elements()[elements_idx as int] == old(self).text_elements()[
                elements_idx as int
            ].push(old(ui_container).next_id_spec()),
            final(ui_container).widgets().len() == old(ui_container).widgets().len() + 1,
            forall|j: int|
                0 <= j < old(ui_container).widgets().len() ==> final(ui_container).widgets()[j]
                    == old(ui_container).widgets()[j],
            forall|j: u64|
                final(ui_container).holds(j) <==> (old(ui_container).holds(j) || j == old(
                    ui_container,
                ).next_id_spec()),
            final(ui_container).widgets().last().id == old(ui_container).next_id_spec(),
            final(ui_container).widgets().last().kind == WidgetKind::Text,
            final(ui_container).widgets().last().content@ == text@,
    {
        let id = ui_container.add_text(x, y, width, height, VAttach::Middle, HAttach::Center, text);
        self.text_elements[elements_idx].push(id);
    }

    /// Remove every widget whose handle lies in one of `groups` from the
    /// container.
    fn remove_group_handles(groups: &Vec<Vec<u64>>, ui_container: &mut Container)
        requires
            old(ui_container).wf(),
        ensures
            final(ui_container).wf(),
            final(ui_container).next_id_spec() == old(ui_container).next_id_spec(),
            forall|id: u64|
                final(ui_container).holds(id) <==> (old(ui_container).holds(id)
                    && !Self::handle_in(groups_view(groups), id)),
    {
        let n = groups.len();
        let mut gi: usize = 0;
        proof {
            assert forall|id: u64| !Self::handle_in(groups_view(groups).take(0), id) by {}
        }
        while gi < n
            invariant
                n == groups@.len(),
                gi <= n,
                ui_container.wf(),
                ui_container.next_id_spec() == old(ui_container).next_id_spec(),
                forall|id: u64|
                    ui_container.holds(id) <==> (old(ui_container).holds(id) && !Self::handle_in(
                        groups_view(groups).take(gi as int),
                        id,
                    )),
            decreases n - gi,
        {
            let m = groups[gi].len();
            let mut wi: usize = 0;
            proof {
                assert(groups@[gi as int]@.take(0) =~= Seq::<u64>::empty());
            }
            while wi < m
                invariant
                    n == groups@.len(),
                    gi < n,
                    m == groups@[gi as int]@.len(),
                    wi <= m,
                    ui_container.wf(),
                    ui_container.next_id_spec() == old(ui_container).next_id_spec(),
                    forall|id: u64|
                        ui_container.holds(id) <==> (old(ui_container).holds(id)
                            && !Self::handle_in(groups_view(groups).take(gi as int), id)
                            && !groups@[gi as int]@.take(wi as int).contains(id)),
                decreases m - wi,
            {
                let h = groups[gi][wi];
                ui_container.remove_widget(h);
                proof {
                    let g = groups@[gi as int]@;
                    assert(g.take(wi as int + 1) =~= g.take(wi as int).push(h));
                    assert forall|id: u64|
                        g.take(wi as int + 1).contains(id) <==> (g.take(wi as int).contains(id)
                            || id == h) by {
                        let pre = g.take(wi as int);
                        let post = g.take(wi as int + 1);
                        if post.contains(id) {
                            let k = choose|k: int| 0 <= k < post.len() && post[k] == id;
                            if k < wi {
                                assert(pre[k] == id);
                            } else {
                                assert(post[k] == h);
                            }
                        }
                        if pre.contains(id) {
                            let k = choose|k: int| 0 <= k < pre.len() && pre[k] == id;
                            assert(post[k] == id);
                        }
                        if id == h {
                            assert(post[wi as int] == id);
                        }
                    }
                }
                wi = wi + 1;
            }
            proof {
                let gv = groups_view(groups);
                let g = groups@[gi as int]@;
                assert(g.take(m as int) =~= g);
                assert(gv.take(gi as int + 1) =~= gv.take(gi as int).push(gv[gi as int]));
                assert forall|id: u64|
                    Self::handle_in(gv.take(gi as int + 1), id) <==> (Self::handle_in(
                        gv.take(gi as int),
                        id,
                    ) || g.contains(id)) by {
                    let pre = gv.take(gi as int);
                    let post = gv.take(gi as int + 1);
                    if Self::handle_in(post, id) {
                        let (i, j) = choose|i: int, j: int|
                            0 <= i < post.len() && 0 <= j < post[i].len() && #[trigger] post[i][j]
                                == id;
                        if i < gi {
                            assert(pre[i][j] == id);
                        } else {
                            assert(post[i] == g);
                            assert(g[j] == id);
                        }
                    }
                    if Self::handle_in(pre, id) {
                        let (i, j) = choose|i: int, j: int|
                            0 <= i < pre.len() && 0 <= j < pre[i].len() && #[trigger] pre[i][j]
                                == id;
                        assert(post[i][j] == id);
                    }
                    if g.contains(id) {
                        let j = choose|j: int| 0 <= j < g.len() && g[j] == id;
                        assert(post[gi as int][j] == id);
                    }
                }
            }
            gi = gi + 1;
        }
        proof {
            assert(groups_view(groups).take(n as int) =~= groups_view(groups));
        }
    }

    /// Empty every group of both collections and drop the outer collections
    /// themselves; every widget handle the pool held is removed from the
    /// shared container by the same call, so the pool retains no handle and
    /// the container no longer holds any of those widgets. Idempotent, and
    /// safe on a pool with no groups.
    pub fn clear_elements(&mut self, ui_container: &mut Container)
        requires
            old(ui_container).wf(),
        ensures
            final(self).wf(),
            final(self).elements().len() == 0,
            final(self).text_elements().len() == 0,
            final(ui_container).wf(),
            final(ui_container).next_id_spec() == old(ui_container).next_id_spec(),
            forall|id: u64|
                final(ui_container).holds(id) <==> (old(ui_container).holds(id) && !old(
                    self,
                ).contains_handle(id)),
    {
        Self::remove_group_handles(&self.elements, ui_container);
        Self::remove_group_handles(&self.text_elements, ui_container);
        self.elements.clear();
        self.text_elements.clear();
    }
}

/// The inventory screen: a transient object created per activation that
/// publishes its inventory to the process-wide context, delegates lifecycle
/// events to the inventory model, and owns the per-slot widget pool it tears
/// down on deactivation. Each instance transits Inactive → Active → Inactive
/// once; re-activation uses a fresh instance.
pub struct InventoryWindow<I: Inventory> {
    pool: WidgetPool,
    inventory: I,
    inventory_context: SharedInventoryContext,
}

impl<I: Inventory> InventoryWindow<I> {
    /// The widget pool's state.
    pub closed spec fn pool(&self) -> WidgetPool {
        self.pool
    }

    /// The screen's inventory model.
    pub closed spec fn model(&self) -> I {
        self.inventory
    }

    /// The identity of the screen's inventory.
    pub open spec fn inventory_id(&self) -> u64 {
        self.model().inv_id()
    }

    /// The process-wide context slot this screen publishes to; fixed at
    /// construction.
    pub closed spec fn shared_context(&self) -> SharedInventoryContext {
        self.inventory_context
    }

    /// A fresh, inactive screen for `inventory`, with empty widget
    /// collections, sharing the process-wide context slot behind
    /// `inventory_context`.
    pub fn new(inventory: I, inventory_context: &SharedInventoryContext) -> (r: InventoryWindow<
        I,
    >)
        ensures
            r.pool().wf(),
            r.pool().elements().len() == 0,
            r.pool().text_elements().len() == 0,
            r.model() == inventory,
            r.inventory_id() == inventory.inv_id(),
    {
        InventoryWindow {
            pool: WidgetPool::new(),
            inventory,
            inventory_context: inventory_context.share(),
        }
    }

    /// Read access to the widget pool.
    pub fn widget_pool(&self) -> (r: &WidgetPool)
        ensures
            *r == self.pool(),
    {
        &self.pool
    }

    /// Read access to the inventory model.
    pub fn inventory_model(&self) -> (r: &I)
        ensures
            *r == self.model(),
    {
        &self.inventory
    }

    /// Consume the screen and hand its inventory model back, so the same
    /// inventory can outlive the screen instance and be reused by a fresh
    /// one on re-activation.
    pub fn into_inventory(self) -> (r: I)
        ensures
            r == self.model(),
    {
        self.inventory
    }

    /// Screen activation: publish this screen's inventory to the
    /// process-wide context slot — so that concurrent context readers see it
    /// before any widget exists — then let the model build its widgets: its
    /// `init` hook runs exactly once, recorded in the model's event history.
    pub fn on_active(&mut self, renderer: &Renderer, ui_container: &mut Container)
        requires
            old(self).pool().wf(),
            old(ui_container).wf(),
            old(ui_container).next_id_spec() + WIDGET_BUDGET <= u64::MAX,
        ensures
            final(self).pool().wf(),
            final(self).inventory_id() == old(self).inventory_id(),
            final(self).model().events() == old(self).model().events().push(
                LifecycleEvent::Init,
            ),
            final(self).shared_context() == old(self).shared_context(),
            final(ui_container).wf(),
            final(ui_container).next_id_spec() <= old(ui_container).next_id_spec()
                + WIDGET_BUDGET,
    {
        let id = self.inventory.id();
        self.inventory_context.store(InventoryContext::holding(id));
        self.inventory.init(renderer, ui_container, &mut self.pool);
    }

    /// The same activation against a context slot held directly, for an
    /// embedding whose context readers run on the driving thread itself: the
    /// context records this screen's inventory (set before the model's
    /// `init` runs), the model's `init` hook runs exactly once, and the pool
    /// keeps its structural parallelism.
    pub fn activate_with_context(
        &mut self,
        ctx: &mut InventoryContext,
        renderer: &Renderer,
        ui_container: &mut Container,
    )
        requires
            old(self).pool().wf(),
            old(ui_container).wf(),
            old(ui_container).next_id_spec() + WIDGET_BUDGET <= u64::MAX,
        ensures
            final(ctx).current() == Some(old(self).inventory_id()),
            final(self).pool().wf(),
            final(self).inventory_id() == old(self).inventory_id(),
            final(self).model().events() == old(self).model().events().push(
                LifecycleEvent::Init,
            ),
            final(self).shared_context() == old(self).shared_context(),
            final(ui_container).wf(),
            final(ui_container).next_id_spec() <= old(ui_container).next_id_spec()
                + WIDGET_BUDGET,
    {
        let id = self.inventory.id();
        ctx.set(id);
        self.inventory.init(renderer, ui_container, &mut self.pool);
    }

    /// Per-frame tick while active: the model's `tick` hook runs exactly
    /// once, recorded in its event history. The elapsed time since the last
    /// tick is informational only and not used by this glue; the screen never
    /// replaces itself with another screen.
    pub fn tick(&mut self, _delta_ms: u64, renderer: &Renderer, ui_container: &mut Container)
        requires
            old(self).pool().wf(),
            old(ui_container).wf(),
            old(ui_container).next_id_spec() + WIDGET_BUDGET <= u64::MAX,
        ensures
            final(self).pool().wf(),
            final(self).inventory_id() == old(self).inventory_id(),
            final(self).model().events() == old(self).model().events().push(
                LifecycleEvent::Tick,
            ),
            final(self).shared_context() == old(self).shared_context(),
            final(ui_container).wf(),
            final(ui_container).next_id_spec() <= old(ui_container).next_id_spec()
                + WIDGET_BUDGET,
    {
        self.inventory.tick(renderer, ui_container, &mut self.pool);
    }

    /// The viewport's safe drawing area changed: the model's `resize` hook
    /// runs exactly once, with the renderer's current safe dimensions —
    /// recorded in its event history, so the model observes the new
    /// dimensions before any subsequent tick.
    pub fn on_resize(&mut self, renderer: &Renderer, ui_container: &mut Container)
        requires
            old(self).pool().wf(),
            old(ui_container).wf(),
            old(ui_container).next_id_spec() + WIDGET_BUDGET <= u64::MAX,
        ensures
            final(self).pool().wf(),
            final(self).inventory_id() == old(self).inventory_id(),
            final(self).model().events() == old(self).model().events().push(
                LifecycleEvent::Resize(renderer.safe_width, renderer.safe_height),
            ),
            final(self).shared_context() == old(self).shared_context(),
            final(ui_container).wf(),
            final(ui_container).next_id_spec() <= old(ui_container).next_id_spec()
                + WIDGET_BUDGET,
    {
        let width = renderer.safe_width;
        let height = renderer.safe_height;
        self.inventory.resize(width, height, renderer, ui_container, &mut self.pool);
    }

    /// Screen deactivation: clear the process-wide context slot — so that
    /// nothing triggered by the model's close hook observes a stale "active"
    /// context — then notify the model (its `close` hook runs exactly once)
    /// and tear down every widget, removing each from the shared container.
    pub fn on_deactive(&mut self, _renderer: &Renderer, ui_container: &mut Container)
        requires
            old(self).pool().wf(),
            old(ui_container).wf(),
        ensures
            final(self).pool().wf(),
            final(self).pool().elements().len() == 0,
            final(self).pool().text_elements().len() == 0,
            final(self).inventory_id() == old(self).inventory_id(),
            final(self).model().events() == old(self).model().events().push(
                LifecycleEvent::Close,
            ),
            final(self).shared_context() == old(self).shared_context(),
            final(ui_container).wf(),
            final(ui_container).next_id_spec() == old(ui_container).next_id_spec(),
            forall|id: u64|
                final(ui_container).holds(id) <==> (old(ui_container).holds(id) && !old(
                    self,
                ).pool().contains_handle(id)),
    {
        self.inventory_context.store(InventoryContext::new());
        self.inventory.close(&self.pool);
        self.pool.clear_elements(ui_container);
    }

    /// The same deactivation against a context slot held directly: the
    /// context ends up empty, the model's `close` hook runs exactly once,
    /// both widget collections end up empty, and the container no longer
    /// holds any widget the pool held.
    pub fn deactivate_with_context(
        &mut self,
        ctx: &mut InventoryContext,
        _renderer: &Renderer,
        ui_container: &mut Container,
    )
        requires
            old(self).pool().wf(),
            old(ui_container).wf(),
        ensures
            final(ctx).current() is None,
            final(self).pool().wf(),
            final(self).pool().elements().len() == 0,
            final(self).pool().text_elements().len() == 0,
            final(self).inventory_id() == old(self).inventory_id(),
            final(self).model().events() == old(self).model().events().push(
                LifecycleEvent::Close,
            ),
            final(self).shared_context() == old(self).shared_context(),
            final(ui_container).wf(),
            final(ui_container).next_id_spec() == old(ui_container).next_id_spec(),
            forall|id: u64|
                final(ui_container).holds(id) <==> (old(ui_container).holds(id) && !old(
                    self,
                ).pool().contains_handle(id)),
    {
        ctx.clear();
        self.inventory.close(&self.pool);
        self.pool.clear_elements(ui_container);
    }

    /// This screen can always be dismissed without confirmation.
    pub fn is_closable(&self) -> (r: bool)
        ensures
            r,
    {
        true
    }

    /// Allocate one fresh, empty group in both collections — the
    /// group-allocation operation that precedes drawing; see
    /// [`WidgetPool::alloc_group`].
    pub fn alloc_group(&mut self) -> (idx: usize)
        requires
            old(self).pool().wf(),
        ensures
            final(self).pool().wf(),
            final(self).model() == old(self).model(),
            final(self).shared_context() == old(self).shared_context(),
            idx == old(self).pool().elements().len(),
            final(self).pool().elements().len() == old(self).pool().elements().len() + 1,
            final(self).pool().text_elements().len() == old(self).pool().text_elements().len()
                + 1,
            forall|j: int|
                0 <= j < old(self).pool().elements().len() ==> final(self).pool().elements()[j]
                    == old(self).pool().elements()[j],
            forall|j: int|
                0 <= j < old(self).pool().text_elements().len()
                    ==> final(self).pool().text_elements()[j] == old(
                    self,
                ).pool().text_elements()[j],
            final(self).pool().elements()[idx as int] == Seq::<u64>::empty(),
            final(self).pool().text_elements()[idx as int] == Seq::<u64>::empty(),
    {
        self.pool.alloc_group()
    }

    /// Create one text widget in text group `elements_idx`; see
    /// [`WidgetPool::draw_text`] for the exact effect.
    pub fn draw_text(
        &mut self,
        text: String,
        x: i32,
        y: i32,
        width: u64,
        height: u64,
        elements_idx: usize,
        ui_container: &mut Container,
    )
        requires
            old(self).pool().wf(),
            elements_idx < old(self).pool().text_elements().len(),
            old(ui_container).wf(),
            old(ui_container).next_id_spec() < u64::MAX,
        ensures
            final(self).pool().wf(),
            final(self).model() == old(self).model(),
            final(self).shared_context() == old(self).shared_context(),
            final(ui_container).wf(),
            final(ui_container).next_id_spec() == old(ui_container).next_id_spec() + 1,
            final(self).pool().elements() == old(self).pool().elements(),
            final(self).pool().text_elements().len() == old(self).pool().text_elements().len(),
            forall|j: int|
                0 <= j < old(self).pool().text_elements().len() && j != elements_idx
                    ==> final(self).pool().text_elements()[j] == old(
                    self,
                ).pool().text_elements()[j],
            final(self).pool().text_elements()[elements_idx as int] == old(
                self,
            ).pool().text_elements()[elements_idx as int].push(old(ui_container).next_id_spec()),
            final(ui_container).widgets().len() == old(ui_container).widgets().len() + 1,
            forall|j: int|
                0 <= j < old(ui_container).widgets().len() ==> final(ui_container).widgets()[j]
                    == old(ui_container).widgets()[j],
            forall|j: u64|
                final(ui_container).holds(j) <==> (old(ui_container).holds(j) || j == old(
                    ui_container,
                ).next_id_spec()),
            final(ui_container).widgets().last().id == old(ui_container).next_id_spec(),
            final(ui_container).widgets().last().kind == WidgetKind::Text,
            final(ui_container).widgets().last().content@ == text@,
    {
        self.pool.draw_text(text, x, y, width, height, elements_idx, ui_container);
    }

    /// Create one image widget for `item` in element group `elements_idx`;
    /// the callback the inventory model draws each occupied slot with. See
    /// [`WidgetPool::draw_item`] for the exact effect.
    pub fn draw_item(
        &mut self,
        item: &Item,
        x: i32,
        y: i32,
        elements_idx: usize,
        ui_container: &mut Container,
        renderer: &Renderer,
    )
        requires
            old(self).pool().wf(),
            elements_idx < old(self).pool().elements().len(),
            old(ui_container).wf(),
            old(ui_container).next_id_spec() < u64::MAX,
        ensures
            final(self).pool().wf(),
            final(self).model() == old(self).model(),
            final(self).shared_context() == old(self).shared_context(),
            final(ui_container).wf(),
            final(ui_container).next_id_spec() == old(ui_container).next_id_spec() + 1,
            final(self).pool().elements().len() == old(self).pool().elements().len(),
            final(self).pool().text_elements() == old(self).pool().text_elements(),
            forall|j: int|
                0 <= j < old(self).pool().elements().len() && j != elements_idx
                    ==> final(self).pool().elements()[j] == old(self).pool().elements()[j],
            final(self).pool().elements()[elements_idx as int] == old(self).pool().elements()[
                elements_idx as int
            ].push(old(ui_container).next_id_spec()),
            final(ui_container).widgets().len() == old(ui_container).widgets().len() + 1,
            forall|j: int|
                0 <= j < old(ui_container).widgets().len() ==> final(ui_container).widgets()[j]
                    == old(ui_container).widgets()[j],
            forall|j: u64|
                final(ui_container).holds(j) <==> (old(ui_container).holds(j) || j == old(
                    ui_container,
                ).next_id_spec()),
            final(ui_container).widgets().last().id == old(ui_container).next_id_spec(),
            final(ui_container).widgets().last().kind == WidgetKind::Image,
            final(ui_container).widgets().last().x == x,
            final(ui_container).widgets().last().y == y,
            final(ui_container).widgets().last().width == renderer.icon_scale as u64
                * ICON_BASE_SIZE,
            final(ui_container).widgets().last().height == renderer.icon_scale as u64
                * ICON_BASE_SIZE,
            final(ui_container).widgets().last().v_attach == VAttach::Middle,
            final(ui_container).widgets().last().h_attach == HAttach::Center,
            final(ui_container).widgets().last().content@ == spec_resolved(
                renderer.textures.entries(),
                item.material.primary_texture@,
                item.material.fallback_texture@,
            ),
    {
        self.pool.draw_item(item, x, y, elements_idx, ui_container, renderer);
    }

    /// Tear down every widget of this screen; see
    /// [`WidgetPool::clear_elements`] for the exact effect.
    pub fn clear_elements(&mut self, ui_container: &mut Container)
        requires
            old(ui_container).wf(),
        ensures
            final(self).pool().wf(),
            final(self).pool().elements().len() == 0,
            final(self).pool().text_elements().len() == 0,
            final(self).model() == old(self).model(),
            final(self).shared_context() == old(self).shared_context(),
            final(ui_container).wf(),
            final(ui_container).next_id_spec() == old(ui_container).next_id_spec(),
            forall|id: u64|
                final(ui_container).holds(id) <==> (old(ui_container).holds(id) && !old(
                    self,
                ).pool().contains_handle(id)),
    {
        self.pool.clear_elements(ui_container);
    }
}

} // verus!

