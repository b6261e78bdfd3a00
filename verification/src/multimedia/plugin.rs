//! What plugins and element factories describe about themselves.

use vstd::prelude::*;
use crate::multimedia::PixelFormat;

verus! {

#[derive(Debug, Clone, Copy, PartialEq, Eq, Structural)]
pub enum PluginType {
    Codec,
    Container,
    Protocol,
    Effect,
    Device,
    Utility,
}

pub struct PluginInfo {
    pub name: String,
    pub description: String,
    pub version: String,
    pub plugin_type: PluginType,
}

pub struct ElementMetadata {
    pub name: String,
    pub long_name: String,
    pub classification: String,
    pub description: String,
    pub author: String,
}

#[derive(Debug, Clone, Copy, PartialEq, Eq, Structural)]
pub enum CodecType {
    Decoder,
    Encoder,
    Both,
}

/// A decoded picture handed to an encoder.
pub struct VideoData {
    pub planes: Vec<Vec<u8>>,
    pub width: u32,
    pub height: u32,
    pub pixel_format: PixelFormat,
    pub pts: i64,
}

} // verus!
