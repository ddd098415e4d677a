use inventory_screen::render::{resolve_texture, TextureRegistry};

#[test]
fn absent_primary_selects_fallback() {
    let mut reg = TextureRegistry::new();
    reg.register(String::from("minecraft:missing"), false);
    let primary = String::from("minecraft:diamond");
    let fallback = String::from("minecraft:missing");
    let chosen = resolve_texture(&reg, &primary, &fallback);
    assert_eq!(chosen, &fallback);
}

#[test]
fn dummy_primary_selects_fallback() {
    let mut reg = TextureRegistry::new();
    reg.register(String::from("minecraft:diamond"), true);
    reg.register(String::from("minecraft:missing"), false);
    let primary = String::from("minecraft:diamond");
    let fallback = String::from("minecraft:missing");
    let chosen = resolve_texture(&reg, &primary, &fallback);
    assert_eq!(chosen, &fallback);
}

#[test]
fn present_primary_selected() {
    let mut reg = TextureRegistry::new();
    reg.register(String::from("minecraft:diamond"), false);
    reg.register(String::from("minecraft:missing"), false);
    let primary = String::from("minecraft:diamond");
    let fallback = String::from("minecraft:missing");
    let chosen = resolve_texture(&reg, &primary, &fallback);
    assert_eq!(chosen, &primary);
}

#[test]
fn lookup_reports_registration_and_dummy_flag() {
    let mut reg = TextureRegistry::new();
    reg.register(String::from("minecraft:stone"), false);
    reg.register(String::from("minecraft:old_dirt"), true);
    assert!(reg.get_texture_optional(&String::from("minecraft:grass")).is_none());
    let stone = reg.get_texture_optional(&String::from("minecraft:stone")).unwrap();
    assert!(!stone.dummy);
    let dirt = reg.get_texture_optional(&String::from("minecraft:old_dirt")).unwrap();
    assert!(dirt.dummy);
}

#[test]
fn resolution_on_empty_registry_is_fallback() {
    let reg = TextureRegistry::new();
    let primary = String::from("minecraft:diamond");
    let fallback = String::from("minecraft:missing");
    let chosen = resolve_texture(&reg, &primary, &fallback);
    assert_eq!(chosen, &fallback);
}
