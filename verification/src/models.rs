//! A concrete inventory model: a single row of items, drawn left to right.
//! Its event log is the real state behind the trait's event history, so an
//! embedding (or a test) can observe the screen's delegation order.

use crate::inventory::{Inventory, Item, LifecycleEvent, WIDGET_BUDGET};
use crate::render::Renderer;
use crate::ui::Container;
use crate::window::WidgetPool;
use vstd::prelude::*;

verus! {

/// Horizontal distance between two neighbouring slots, in unscaled pixels.
pub const SLOT_SPACING: i32 = 18;

/// How many of `count` slots one `init` of a [`RowInventory`] draws: all of
/// them, capped at the widget budget.
pub open spec fn drawn_slots(count: int) -> int {
    if count > WIDGET_BUDGET {
        WIDGET_BUDGET as int
    } else {
        count
    }
}

/// A minimal inventory model: one row of items, laid out left to right in a
/// single element group on `init`. Draws at most [`WIDGET_BUDGET`] slots.
pub struct RowInventory {
    id: u64,
    items: Vec<Item>,
    log: Vec<LifecycleEvent>,
}

impl RowInventory {
    /// The items of the row, in slot order.
    pub closed spec fn items_seq(&self) -> Seq<Item> {
        self.items@
    }

    /// A fresh row inventory with identity `id` holding `items`.
    pub fn new(id: u64, items: Vec<Item>) -> (r: RowInventory)
        ensures
            r.inv_id() == id,
            r.items_seq() == items@,
            r.events() == Seq::<LifecycleEvent>::empty(),
    {
        RowInventory { id, items, log: Vec::new() }
    }

    /// The lifecycle calls received so far, oldest first.
    pub fn log(&self) -> (r: &Vec<LifecycleEvent>)
        ensures
            r@ == self.events(),
    {
        &self.log
    }
}

impl Inventory for RowInventory {
    closed spec fn inv_id(&self) -> u64 {
        self.id
    }

    closed spec fn events(&self) -> Seq<LifecycleEvent> {
        self.log@
    }

    fn id(&self) -> (r: u64)
        ensures
            r == self.inv_id(),
    {
        self.id
    }

    fn init(&mut self, renderer: &Renderer, ui_container: &mut Container, window: &mut WidgetPool)
        ensures
            final(self).items_seq() == old(self).items_seq(),
            final(window).elements().len() == old(window).elements().len() + 1,
            final(window).text_elements().len() == old(window).text_elements().len() + 1,
            forall|j: int|
                0 <= j < old(window).elements().len() ==> final(window).elements()[j] == old(
                    window,
                ).elements()[j],
            forall|j: int|
                0 <= j < old(window).text_elements().len() ==> final(window).text_elements()[j]
                    == old(window).text_elements()[j],
            final(window).elements()[old(window).elements().len() as int].len() == drawn_slots(
                old(self).items_seq().len() as int,
            ),
            final(window).text_elements()[old(window).elements().len() as int] == Seq::<
                u64,
            >::empty(),
            final(ui_container).widgets().len() == old(ui_container).widgets().len()
                + drawn_slots(old(self).items_seq().len() as int),
    {
        let idx = window.alloc_group();
        let mut n: usize = self.items.len();
        if n > 65536 {
            n = 65536;
        }
        let mut i: usize = 0;
        while i < n
            invariant
                n <= self.items@.len(),
                n <= 65536,
                i <= n,
                *self == *old(self),
                idx == old(window).elements().len(),
                window.wf(),
                window.elements().len() == idx + 1,
                window.text_elements().len() == idx + 1,
                forall|j: int|
                    0 <= j < idx ==> window.elements()[j] == old(window).elements()[j],
                forall|j: int|
                    0 <= j < idx ==> window.text_elements()[j] == old(window).text_elements()[j],
                window.elements()[idx as int].len() == i,
                window.text_elements()[idx as int] == Seq::<u64>::empty(),
                ui_container.wf(),
                ui_container.widgets().len() == old(ui_container).widgets().len() + i,
                ui_container.next_id_spec() <= old(ui_container).next_id_spec() + i,
                old(ui_container).next_id_spec() + WIDGET_BUDGET <= u64::MAX,
            decreases n - i,
        {
            let x = (i as i32) * SLOT_SPACING;
            window.draw_item(&self.items[i], x, 0, idx, ui_container, renderer);
            i = i + 1;
        }
        self.log.push(LifecycleEvent::Init);
    }

    fn tick(&mut self, renderer: &Renderer, ui_container: &mut Container, window: &mut WidgetPool)
        ensures
            final(self).items_seq() == old(self).items_seq(),
            *final(window) == *old(window),
            *final(ui_container) == *old(ui_container),
    {
        self.log.push(LifecycleEvent::Tick);
    }

    fn resize(
        &mut self,
        width: u32,
        height: u32,
        renderer: &Renderer,
        ui_container: &mut Container,
        window: &mut WidgetPool,
    )
        ensures
            final(self).items_seq() == old(self).items_seq(),
            *final(window) == *old(window),
            *final(ui_container) == *old(ui_container),
    {
        self.log.push(LifecycleEvent::Resize(width, height));
    }

    fn close(&mut self, window: &WidgetPool)
        ensures
            final(self).items_seq() == old(self).items_seq(),
    {
        self.log.push(LifecycleEvent::Close);
    }
}

} // verus!
