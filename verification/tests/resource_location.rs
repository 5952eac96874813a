use sand_components::{PackNamespace, ResourceLocation, StructureTemplate};

#[test]
fn structure_template_exports_as_copy_backed_nbt_component() {
    let template = StructureTemplate::new(ResourceLocation::new("example", "rooms/start").unwrap(), "structures/start.nbt");
    assert_eq!(template.resource_location().namespace(), "example");
    assert_eq!(template.resource_location().path(), "rooms/start");
    assert_eq!(template.component_dir(), "structure");
    assert_eq!(template.file_extension(), "nbt");
    assert_eq!(template.copy_source_path(), Some("structures/start.nbt"));
}

#[test]
fn resource_location_text_roundtrips() {
    let rl = ResourceLocation::new("my_pack", "dir/sub.file-1").unwrap();
    assert_eq!(rl.to_string(), "my_pack:dir/sub.file-1");
    let back = ResourceLocation::parse(rl.to_string().as_str()).unwrap();
    assert_eq!(back.namespace(), "my_pack");
    assert_eq!(back.path(), "dir/sub.file-1");
}

#[test]
fn resource_location_rejects_bad_parts() {
    assert_eq!(
        ResourceLocation::new("Bad", "x").unwrap_err().to_string(),
        "invalid resource location namespace `Bad`"
    );
    assert_eq!(
        ResourceLocation::new("ok", "").unwrap_err().to_string(),
        "invalid resource location path ``"
    );
    assert!(ResourceLocation::new("", "x").is_err());
    assert!(ResourceLocation::parse("no_colon").is_err());
    assert!(ResourceLocation::parse("a:b:c").is_err());
    assert_eq!(ResourceLocation::minecraft("stone").unwrap().to_string(), "minecraft:stone");
}

#[test]
fn pack_namespace_is_validated() {
    assert_eq!(PackNamespace::new("my_pack").unwrap().as_str(), "my_pack");
    assert!(PackNamespace::new("My Pack").is_err());
}
