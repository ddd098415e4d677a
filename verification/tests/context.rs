use inventory_screen::inventory::{InventoryContext, Item, Material, SharedInventoryContext};

#[test]
fn context_set_get_clear() {
    let mut ctx = InventoryContext::new();
    assert_eq!(ctx.get(), None);
    ctx.set(11);
    assert_eq!(ctx.get(), Some(11));
    ctx.set(12);
    assert_eq!(ctx.get(), Some(12));
    ctx.clear();
    assert_eq!(ctx.get(), None);
}

#[test]
fn context_holding_records_the_id() {
    let ctx = InventoryContext::holding(3);
    assert_eq!(ctx.get(), Some(3));
}

#[test]
fn shared_slot_starts_empty() {
    let shared = SharedInventoryContext::new();
    assert_eq!(shared.current(), None);
    let other = shared.share();
    assert_eq!(other.current(), None);
}

#[test]
fn material_reports_both_texture_locations() {
    let item = Item {
        material: Material {
            primary_texture: String::from("minecraft:diamond"),
            fallback_texture: String::from("minecraft:missing"),
        },
    };
    let (primary, fallback) = item.material.item_texture_locations();
    assert_eq!(primary, String::from("minecraft:diamond"));
    assert_eq!(fallback, String::from("minecraft:missing"));
}
