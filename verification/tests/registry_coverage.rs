use std::collections::{BTreeSet, HashSet};

use sand_components::registry_coverage::{
    DatapackAssetKind, RegistryApiStatus, datapack_asset_coverage, known_partial_registries,
    registry_coverage, registry_removed_in, tag_coverage,
};

fn valid_resource_location(id: &str) -> bool {
    let Some((namespace, path)) = id.split_once(':') else {
        return false;
    };
    !namespace.is_empty()
        && !path.is_empty()
        && namespace
            .bytes()
            .all(|b| b.is_ascii_lowercase() || b.is_ascii_digit() || b"_.-".contains(&b))
        && path
            .bytes()
            .all(|b| b.is_ascii_lowercase() || b.is_ascii_digit() || b"_./-".contains(&b))
}

fn valid_dir(path: &str) -> bool {
    !path.is_empty()
        && !path.starts_with('/')
        && !path.split('/').any(|part| part.is_empty() || part == "." || part == "..")
        && path
            .bytes()
            .all(|b| b.is_ascii_lowercase() || b.is_ascii_digit() || b"_./-".contains(&b))
}

#[test]
fn coverage_table_is_non_empty() {
    assert!(!registry_coverage().is_empty());
}

#[test]
fn all_registry_keys_are_namespaced() {
    for entry in registry_coverage() {
        assert!(
            valid_resource_location(entry.registry_key),
            "registry_key must be a resource location: '{}'",
            entry.registry_key
        );
        assert!(valid_dir(entry.datapack_dir));
    }
}

#[test]
fn fully_implemented_registries_have_sand_module() {
    for entry in registry_coverage() {
        if matches!(entry.api_status, RegistryApiStatus::FullyImplemented) {
            assert!(
                entry.sand_module.is_some(),
                "registry '{}' is FullyImplemented but has no sand_module",
                entry.registry_key
            );
        }
    }
}

#[test]
fn no_duplicate_registry_keys() {
    let mut seen = HashSet::new();
    for entry in registry_coverage() {
        assert!(seen.insert(entry.registry_key), "duplicate registry_key: '{}'", entry.registry_key);
    }
}

#[test]
fn tag_rows_are_separate_and_pseudo_ids_cannot_masquerade_as_registries() {
    assert!(tag_coverage().iter().all(|tag| valid_resource_location(tag.value_registry)));
    assert!(tag_coverage().iter().all(|tag| valid_dir(tag.datapack_dir)));
    assert!(!registry_coverage().iter().any(|entry| entry.registry_key.contains("(tags)")));
}

#[test]
fn datapack_asset_rows_are_valid_and_unique() {
    assert!(
        !datapack_asset_coverage().is_empty(),
        "non-registry datapack assets must remain visible to coverage audits"
    );
    let mut names = BTreeSet::new();
    for asset in datapack_asset_coverage() {
        assert!(names.insert(asset.asset_name), "duplicate datapack asset coverage row: {}", asset.asset_name);
        assert!(valid_dir(asset.datapack_dir), "invalid datapack asset directory: {}", asset.datapack_dir);
        assert!(
            !asset.file_extension.is_empty()
                && !asset.file_extension.starts_with('.')
                && asset
                    .file_extension
                    .bytes()
                    .all(|byte| byte.is_ascii_lowercase() || byte.is_ascii_digit()),
            "invalid datapack asset extension: {}",
            asset.file_extension
        );
        assert!(!asset.sand_module.is_empty());
        assert!(!asset.notes.is_empty());
    }
}

#[test]
fn structure_templates_are_tracked_as_copy_backed_binary_assets() {
    let assets = datapack_asset_coverage();
    let asset = assets
        .iter()
        .find(|asset| asset.asset_name == "structure_template")
        .expect("StructureTemplate must remain represented in the coverage audit");
    assert_eq!(asset.datapack_dir, "structure");
    assert_eq!(asset.file_extension, "nbt");
    assert_eq!(asset.sand_module, "sand_components::structure_template");
    assert_eq!(asset.kind, DatapackAssetKind::CopyBackedBinary);
    assert_eq!(asset.api_status, RegistryApiStatus::FullyImplemented);
    assert!(
        asset.notes.contains("does not parse") && asset.notes.contains("semantically validate"),
        "coverage must not overstate Sand's binary NBT support"
    );
    assert!(
        !registry_coverage().iter().any(|registry| registry.datapack_dir == asset.datapack_dir),
        "structure templates are assets, not data-driven registry rows"
    );
}

#[test]
fn missing_registries_have_notes() {
    for entry in registry_coverage() {
        if matches!(entry.api_status, RegistryApiStatus::Missing) {
            assert!(
                !entry.notes.is_empty(),
                "missing registry '{}' must have notes explaining the gap or escape hatch",
                entry.registry_key
            );
        }
    }
}

#[test]
fn registry_coverage_status_matches_known_gaps() {
    let rows = registry_coverage();
    for (registry_key, issues) in known_partial_registries() {
        let entry = rows
            .iter()
            .find(|e| e.registry_key == registry_key)
            .unwrap_or_else(|| panic!("known partial registries reference unknown registry '{registry_key}'"));
        assert_ne!(entry.api_status, RegistryApiStatus::FullyImplemented);
        for issue in issues {
            assert!(
                entry.notes.contains(issue),
                "registry '{registry_key}' notes must reference tracking issue {issue}: {:?}",
                entry.notes
            );
        }
    }
}

#[test]
fn fully_implemented_rows_have_justification_notes() {
    for entry in registry_coverage() {
        if entry.api_status == RegistryApiStatus::FullyImplemented {
            assert!(
                entry.notes.len() >= 20,
                "registry '{}' claims FullyImplemented but notes are too short to justify it: {:?}",
                entry.registry_key,
                entry.notes
            );
        }
    }
}

#[test]
fn removed_registries_name_covered_rows_and_versions() {
    let rows = registry_coverage();
    for (key, version) in registry_removed_in() {
        assert!(rows.iter().any(|e| e.registry_key == key), "unknown removed registry {key}");
        assert!(!version.is_empty());
    }
}
