use vstd::prelude::*;
use crate::color_convert::ColorSpace;
use crate::geometry;

verus! {

/// Flag the engine's decoder takes to read only the header metadata.
pub const DPARAMETERS_DUMP_FLAG: u32 = 2;

/// A rectangular sub-region to decode, in full-resolution coordinates.
#[derive(Debug, Clone, Copy, PartialEq, Eq, Structural)]
pub struct DecodingArea {
    pub x0: i32,
    pub y0: i32,
    pub x1: i32,
    pub y1: i32,
}

/// Parameters used to decode a JPEG2000 image. Every field defaults to
/// "unset": the engine's own defaults then apply.
#[derive(Debug, Clone)]
pub struct DecodeParams {
    pub default_color_space: Option<ColorSpace>,
    pub reduce_factor: Option<u32>,
    pub decoding_area: Option<DecodingArea>,
    pub quality_layers: Option<u32>,
    pub num_threads: Option<i32>,
}

/// The engine-native decoder parameters this library resolves a
/// `DecodeParams` into: unset fields become the engine defaults of zero.
#[derive(Debug, Clone, Copy, PartialEq, Eq, Structural)]
pub struct EngineParams {
    pub cp_reduce: u32,
    pub cp_layer: u32,
    pub flags: u32,
}

impl Default for DecodeParams {
    /// Every field starts unset, deferring to the engine's defaults.
    fn default() -> (r: Self)
        ensures
            r.default_color_space is None,
            r.reduce_factor is None,
            r.decoding_area is None,
            r.quality_layers is None,
            r.num_threads is None,
    {
        DecodeParams {
            default_color_space: None,
            reduce_factor: None,
            decoding_area: None,
            quality_layers: None,
            num_threads: None,
        }
    }
}

impl DecodeParams {
    /// Used when the engine cannot determine the color space.
    pub fn with_default_colorspace(self, color_space: ColorSpace) -> (r: Self)
        ensures
            r.default_color_space == Some(color_space),
            r.reduce_factor == self.reduce_factor,
            r.decoding_area == self.decoding_area,
            r.quality_layers == self.quality_layers,
            r.num_threads == self.num_threads,
    {
        DecodeParams { default_color_space: Some(color_space), ..self }
    }

    /// The image will be scaled to dimension / 2^reduce_factor.
    pub fn with_reduce_factor(self, reduce_factor: u32) -> (r: Self)
        ensures
            r.reduce_factor == Some(reduce_factor),
            r.default_color_space == self.default_color_space,
            r.decoding_area == self.decoding_area,
            r.quality_layers == self.quality_layers,
            r.num_threads == self.num_threads,
    {
        DecodeParams { reduce_factor: Some(reduce_factor), ..self }
    }

    /// Hint for the engine's internal thread pool.
    pub fn with_num_threads(self, num: i32) -> (r: Self)
        ensures
            r.num_threads == Some(num),
            r.default_color_space == self.default_color_space,
            r.reduce_factor == self.reduce_factor,
            r.decoding_area == self.decoding_area,
            r.quality_layers == self.quality_layers,
    {
        DecodeParams { num_threads: Some(num), ..self }
    }

    /// The image will be cropped to the given area, with width x1 - x0 and
    /// height y1 - y0.
    pub fn with_decoding_area(self, x0: i32, y0: i32, x1: i32, y1: i32) -> (r: Self)
        ensures
            r.decoding_area == Some(DecodingArea { x0, y0, x1, y1 }),
            r.default_color_space == self.default_color_space,
            r.reduce_factor == self.reduce_factor,
            r.quality_layers == self.quality_layers,
            r.num_threads == self.num_threads,
    {
        DecodeParams { decoding_area: Some(DecodingArea { x0, y0, x1, y1 }), ..self }
    }

    /// Only the given number of quality layers will be used.
    pub fn with_quality_layers(self, quality_layers: u32) -> (r: Self)
        ensures
            r.quality_layers == Some(quality_layers),
            r.default_color_space == self.default_color_space,
            r.reduce_factor == self.reduce_factor,
            r.decoding_area == self.decoding_area,
            r.num_threads == self.num_threads,
    {
        DecodeParams { quality_layers: Some(quality_layers), ..self }
    }

    /// The dimension an axis keeps after the engine discarded
    /// `discard_level` resolution levels: `u / 2^discard_level`, rounded up.
    pub fn value_for_discard_level(u: u32, discard_level: u32) -> (r: u32)
        requires
            discard_level < 32,
        ensures
            r == geometry::spec_effective_dimension(u as nat, discard_level as nat),
    {
        geometry::effective_dimension(u, discard_level)
    }

    /// The engine-native parameters this configuration stands for: a set
    /// reduction factor or quality-layer cap is passed through, an unset one
    /// becomes the engine default of zero.
    pub fn resolve(&self) -> (r: EngineParams)
        ensures
            r.cp_reduce == match self.reduce_factor {
                Some(f) => f,
                None => 0u32,
            },
            r.cp_layer == match self.quality_layers {
                Some(l) => l,
                None => 0u32,
            },
            r.flags == 0u32,
    {
        let mut p = default_decoder_parameters();
        if let Some(reduce_factor) = self.reduce_factor {
            p.cp_reduce = reduce_factor;
        }
        if let Some(quality_layers) = self.quality_layers {
            p.cp_layer = quality_layers;
        }
        p
    }
}

/// The engine's default decoder parameters: full resolution, all quality
/// layers, no flags.
pub fn default_decoder_parameters() -> (r: EngineParams)
    ensures
        r.cp_reduce == 0u32,
        r.cp_layer == 0u32,
        r.flags == 0u32,
{
    EngineParams { cp_reduce: 0, cp_layer: 0, flags: 0 }
}

/// The decoder parameters for a header-only read: the dump flag set, all
/// else at the engine defaults.
pub fn dump_decoder_parameters() -> (r: EngineParams)
    ensures
        r.cp_reduce == 0u32,
        r.cp_layer == 0u32,
        r.flags == DPARAMETERS_DUMP_FLAG,
{
    EngineParams { cp_reduce: 0, cp_layer: 0, flags: DPARAMETERS_DUMP_FLAG }
}

} // verus!
