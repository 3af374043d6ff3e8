//! Descriptions of the texture files a terrain uses.

use vstd::prelude::*;

verus! {

/// Files of one ground texture, and the splat channel that selects it.
#[derive(Debug)]
pub struct TerrainTextureMetadataEntry {
    pub id: String,
    pub diffuse: String,
    pub normal: Option<String>,
    pub roughness: Option<String>,
    pub splatmap_channel: usize,
}

/// Files of the texture drawn on skirts.
#[derive(Debug)]
pub struct TerrainWallTextureMetadata {
    pub id: String,
    pub diffuse: String,
    pub normal: Option<String>,
    pub roughness: Option<String>,
}

} // verus!
