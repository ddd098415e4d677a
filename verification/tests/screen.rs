use inventory_screen::inventory::{Item, LifecycleEvent, Material, SharedInventoryContext};
use inventory_screen::models::RowInventory;
use inventory_screen::render::{Renderer, TextureRegistry};
use inventory_screen::ui::{Container, HAttach, VAttach, WidgetKind};
use inventory_screen::window::InventoryWindow;

fn item(primary: &str, fallback: &str) -> Item {
    Item {
        material: Material {
            primary_texture: String::from(primary),
            fallback_texture: String::from(fallback),
        },
    }
}

fn renderer(icon_scale: u32, safe_width: u32, safe_height: u32) -> Renderer {
    let mut reg = TextureRegistry::new();
    reg.register(String::from("minecraft:missing"), false);
    reg.register(String::from("minecraft:stone"), false);
    reg.register(String::from("minecraft:old_dirt"), true);
    Renderer { textures: reg, safe_width, safe_height, icon_scale }
}

#[test]
fn absent_texture_slot_binds_fallback() {
    let r = renderer(2, 800, 600);
    let shared = SharedInventoryContext::new();
    let inv = RowInventory::new(7, vec![item("minecraft:diamond", "minecraft:missing")]);
    let mut w = InventoryWindow::new(inv, &shared);
    let mut c = Container::new();
    w.on_active(&r, &mut c);
    assert_eq!(c.widget_count(), 1);
    let widget = c.widget_at(0);
    assert_eq!(widget.content, String::from("minecraft:missing"));
    assert!(matches!(widget.kind, WidgetKind::Image));
    assert_eq!(widget.width, 32);
    assert_eq!(widget.height, 32);
    assert!(matches!(widget.v_attach, VAttach::Middle));
    assert!(matches!(widget.h_attach, HAttach::Center));
}

#[test]
fn present_texture_slot_binds_primary() {
    let r = renderer(1, 800, 600);
    let shared = SharedInventoryContext::new();
    let inv = RowInventory::new(
        8,
        vec![item("minecraft:stone", "minecraft:missing"), item(
            "minecraft:old_dirt",
            "minecraft:missing",
        )],
    );
    let mut w = InventoryWindow::new(inv, &shared);
    let mut c = Container::new();
    w.on_active(&r, &mut c);
    assert_eq!(c.widget_count(), 2);
    assert_eq!(c.widget_at(0).content, String::from("minecraft:stone"));
    // the second item's primary is registered but only as a placeholder
    assert_eq!(c.widget_at(1).content, String::from("minecraft:missing"));
}

#[test]
fn activation_publishes_inventory_to_shared_context() {
    let r = renderer(1, 800, 600);
    let shared = SharedInventoryContext::new();
    let inv = RowInventory::new(7, vec![]);
    let mut w = InventoryWindow::new(inv, &shared);
    let mut c = Container::new();
    assert_eq!(shared.current(), None);
    w.on_active(&r, &mut c);
    assert_eq!(shared.current(), Some(7));
    w.on_deactive(&r, &mut c);
    assert_eq!(shared.current(), None);
}

#[test]
fn activation_with_direct_context_slot() {
    let r = renderer(1, 800, 600);
    let shared = SharedInventoryContext::new();
    let inv = RowInventory::new(21, vec![item("minecraft:stone", "minecraft:missing")]);
    let mut w = InventoryWindow::new(inv, &shared);
    let mut c = Container::new();
    let mut ctx = inventory_screen::inventory::InventoryContext::new();
    w.activate_with_context(&mut ctx, &r, &mut c);
    assert_eq!(ctx.get(), Some(21));
    w.deactivate_with_context(&mut ctx, &r, &mut c);
    assert_eq!(ctx.get(), None);
    assert_eq!(c.widget_count(), 0);
}

#[test]
fn last_writer_wins_without_stacking() {
    let r = renderer(1, 800, 600);
    let shared = SharedInventoryContext::new();
    let mut a = InventoryWindow::new(RowInventory::new(1, vec![]), &shared);
    let mut b = InventoryWindow::new(RowInventory::new(2, vec![]), &shared);
    let mut c = Container::new();
    a.on_active(&r, &mut c);
    assert_eq!(shared.current(), Some(1));
    // activate B without deactivating A: the context holds B only
    b.on_active(&r, &mut c);
    assert_eq!(shared.current(), Some(2));
}

#[test]
fn direct_context_slot_last_writer_wins() {
    let r = renderer(1, 800, 600);
    let shared = SharedInventoryContext::new();
    let mut a = InventoryWindow::new(RowInventory::new(31, vec![]), &shared);
    let mut b = InventoryWindow::new(RowInventory::new(32, vec![]), &shared);
    let mut c = Container::new();
    let mut ctx = inventory_screen::inventory::InventoryContext::new();
    a.activate_with_context(&mut ctx, &r, &mut c);
    assert_eq!(ctx.get(), Some(31));
    b.activate_with_context(&mut ctx, &r, &mut c);
    assert_eq!(ctx.get(), Some(32));
}

#[test]
fn deactivation_empties_three_groups_and_the_container() {
    let r = renderer(1, 800, 600);
    let shared = SharedInventoryContext::new();
    let inv = RowInventory::new(5, vec![item("minecraft:stone", "minecraft:missing")]);
    let mut w = InventoryWindow::new(inv, &shared);
    let mut c = Container::new();
    let foreign = c.add_image(
        0,
        0,
        8,
        8,
        VAttach::Top,
        HAttach::Left,
        String::from("minecraft:cursor"),
    );
    // init populates group 0; draw into two more groups by hand
    w.on_active(&r, &mut c);
    let g1 = w.alloc_group();
    let g2 = w.alloc_group();
    w.draw_item(&item("minecraft:stone", "minecraft:missing"), 20, 0, g1, &mut c, &r);
    w.draw_item(&item("minecraft:diamond", "minecraft:missing"), 40, 0, g2, &mut c, &r);
    assert_eq!(w.widget_pool().group_count(), 3);
    assert_eq!(w.widget_pool().group_len(0), 1);
    assert_eq!(w.widget_pool().group_len(g1), 1);
    assert_eq!(w.widget_pool().group_len(g2), 1);
    assert_eq!(c.widget_count(), 4);
    w.on_deactive(&r, &mut c);
    assert_eq!(w.widget_pool().group_count(), 0);
    assert_eq!(w.widget_pool().text_group_count(), 0);
    // the container keeps only the widget this screen never owned
    assert_eq!(c.widget_count(), 1);
    assert_eq!(c.widget_at(0).id, foreign);
}

#[test]
fn clear_elements_is_idempotent() {
    let r = renderer(1, 800, 600);
    let shared = SharedInventoryContext::new();
    let inv = RowInventory::new(6, vec![item("minecraft:stone", "minecraft:missing")]);
    let mut w = InventoryWindow::new(inv, &shared);
    let mut c = Container::new();
    w.on_active(&r, &mut c);
    w.alloc_group();  // one populated group, one empty group
    w.clear_elements(&mut c);
    assert_eq!(w.widget_pool().group_count(), 0);
    assert_eq!(w.widget_pool().text_group_count(), 0);
    assert_eq!(c.widget_count(), 0);
    w.clear_elements(&mut c);
    assert_eq!(w.widget_pool().group_count(), 0);
    assert_eq!(w.widget_pool().text_group_count(), 0);
    assert_eq!(c.widget_count(), 0);
}

#[test]
fn clear_elements_on_fresh_screen_is_safe() {
    let shared = SharedInventoryContext::new();
    let inv = RowInventory::new(6, vec![]);
    let mut w = InventoryWindow::new(inv, &shared);
    let mut c = Container::new();
    w.clear_elements(&mut c);
    w.clear_elements(&mut c);
    assert_eq!(w.widget_pool().group_count(), 0);
}

#[test]
fn element_collections_stay_parallel() {
    let r = renderer(1, 800, 600);
    let shared = SharedInventoryContext::new();
    let inv = RowInventory::new(9, vec![item("minecraft:stone", "minecraft:missing")]);
    let mut w = InventoryWindow::new(inv, &shared);
    let mut c = Container::new();
    w.on_active(&r, &mut c);
    assert_eq!(w.widget_pool().group_count(), w.widget_pool().text_group_count());
    w.tick(16, &r, &mut c);
    assert_eq!(w.widget_pool().group_count(), w.widget_pool().text_group_count());
    w.alloc_group();
    assert_eq!(w.widget_pool().group_count(), w.widget_pool().text_group_count());
}

#[test]
fn resize_reaches_model_before_next_tick() {
    let r = renderer(1, 800, 600);
    let shared = SharedInventoryContext::new();
    let inv = RowInventory::new(4, vec![]);
    let mut w = InventoryWindow::new(inv, &shared);
    let mut c = Container::new();
    w.on_active(&r, &mut c);
    let resized = renderer(1, 1024, 768);
    w.on_resize(&resized, &mut c);
    w.tick(16, &resized, &mut c);
    let log = w.inventory_model().log();
    assert_eq!(log.len(), 3);
    assert!(matches!(log[0], LifecycleEvent::Init));
    assert!(matches!(log[1], LifecycleEvent::Resize(1024, 768)));
    assert!(matches!(log[2], LifecycleEvent::Tick));
}

#[test]
fn deactivation_notifies_the_model() {
    let r = renderer(1, 800, 600);
    let shared = SharedInventoryContext::new();
    let inv = RowInventory::new(4, vec![]);
    let mut w = InventoryWindow::new(inv, &shared);
    let mut c = Container::new();
    w.on_active(&r, &mut c);
    w.on_deactive(&r, &mut c);
    let log = w.inventory_model().log();
    assert_eq!(log.len(), 2);
    assert!(matches!(log[0], LifecycleEvent::Init));
    assert!(matches!(log[1], LifecycleEvent::Close));
}

#[test]
fn draw_text_populates_the_text_group() {
    let shared = SharedInventoryContext::new();
    let inv = RowInventory::new(3, vec![]);
    let mut w = InventoryWindow::new(inv, &shared);
    let mut c = Container::new();
    let idx = w.alloc_group();
    w.draw_text(String::from("x64"), 4, 5, 10, 12, idx, &mut c);
    assert_eq!(w.widget_pool().text_group_len(idx), 1);
    assert_eq!(w.widget_pool().group_len(idx), 0);
    assert_eq!(c.widget_count(), 1);
    assert_eq!(c.widget_at(0).content, String::from("x64"));
    assert!(matches!(c.widget_at(0).kind, WidgetKind::Text));
}

#[test]
fn screen_is_always_closable() {
    let shared = SharedInventoryContext::new();
    let w = InventoryWindow::new(RowInventory::new(2, vec![]), &shared);
    assert!(w.is_closable());
}

#[test]
fn empty_inventory_activation_creates_no_widgets() {
    let r = renderer(1, 800, 600);
    let shared = SharedInventoryContext::new();
    let mut w = InventoryWindow::new(RowInventory::new(10, vec![]), &shared);
    let mut c = Container::new();
    w.on_active(&r, &mut c);
    assert_eq!(c.widget_count(), 0);
    assert_eq!(w.widget_pool().group_count(), 1);
    assert_eq!(w.widget_pool().group_len(0), 0);
}

#[test]
fn icon_size_scales_with_hud_icon_scale() {
    let r = renderer(3, 800, 600);
    let shared = SharedInventoryContext::new();
    let inv = RowInventory::new(12, vec![item("minecraft:stone", "minecraft:missing")]);
    let mut w = InventoryWindow::new(inv, &shared);
    let mut c = Container::new();
    w.on_active(&r, &mut c);
    assert_eq!(c.widget_at(0).width, 48);
    assert_eq!(c.widget_at(0).height, 48);
}

#[test]
fn removed_widget_leaves_the_container() {
    let mut c = Container::new();
    let a = c.add_image(0, 0, 1, 1, VAttach::Top, HAttach::Left, String::from("a"));
    let b = c.add_image(0, 0, 1, 1, VAttach::Top, HAttach::Left, String::from("b"));
    assert_ne!(a, b);
    c.remove_widget(a);
    assert_eq!(c.widget_count(), 1);
    assert_eq!(c.widget_at(0).id, b);
    // removing an absent handle is without effect
    c.remove_widget(a);
    assert_eq!(c.widget_count(), 1);
}

#[test]
fn inventory_outlives_the_screen_and_is_reused() {
    let r = renderer(1, 800, 600);
    let shared = SharedInventoryContext::new();
    let inv = RowInventory::new(40, vec![item("minecraft:stone", "minecraft:missing")]);
    let mut w = InventoryWindow::new(inv, &shared);
    let mut c = Container::new();
    w.on_active(&r, &mut c);
    w.on_deactive(&r, &mut c);
    // the model outlives the screen instance: take it back and reuse it
    let inv = w.into_inventory();
    assert_eq!(inv.log().len(), 2);
    let mut w2 = InventoryWindow::new(inv, &shared);
    w2.on_active(&r, &mut c);
    assert_eq!(shared.current(), Some(40));
    assert_eq!(c.widget_count(), 1);
    let log = w2.inventory_model().log();
    assert_eq!(log.len(), 3);
    assert!(matches!(log[0], LifecycleEvent::Init));
    assert!(matches!(log[1], LifecycleEvent::Close));
    assert!(matches!(log[2], LifecycleEvent::Init));
}
