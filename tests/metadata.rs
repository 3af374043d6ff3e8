use tile_terrain::{TerrainTextureMetadataEntry, TerrainWallTextureMetadata};

#[test]
fn metadata_holds_texture_files() {
    let entry = TerrainTextureMetadataEntry {
        id: "grass".to_string(),
        diffuse: "grass_diff.png".to_string(),
        normal: None,
        roughness: Some("grass_rough.png".to_string()),
        splatmap_channel: 0,
    };
    assert_eq!(entry.splatmap_channel, 0);
    assert_eq!(entry.roughness.as_deref(), Some("grass_rough.png"));
    let wall = TerrainWallTextureMetadata {
        id: "wall".to_string(),
        diffuse: "wall_diff.png".to_string(),
        normal: Some("wall_norm.png".to_string()),
        roughness: None,
    };
    assert_eq!(wall.diffuse, "wall_diff.png");
    assert!(wall.roughness.is_none());
}
