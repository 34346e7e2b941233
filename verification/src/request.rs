//! The immutable configuration of one compression run, validated once at the
//! boundary and shared read-only across all workers.

use crate::format::OutputFormat;
use vstd::prelude::*;

verus! {

/// A configuration the run cannot proceed with.
#[derive(Clone, Copy, PartialEq, Eq, Structural, Debug)]
pub enum ConfigError {
    /// The quality level lies outside 1..=100.
    QualityOutOfRange,
    /// A size bound of zero pixels names no image.
    ZeroSizeBound,
}

impl ConfigError {
    /// A human-readable description of the failure.
    pub fn message(&self) -> (r: &'static str)
        ensures
            self is QualityOutOfRange ==> r@ == "Quality must be between 1 and 100"@,
            self is ZeroSizeBound ==> r@ == "Size bounds must be at least 1 pixel"@,
    {
        match self {
            ConfigError::QualityOutOfRange => "Quality must be between 1 and 100",
            ConfigError::ZeroSizeBound => "Size bounds must be at least 1 pixel",
        }
    }
}

/// One run's configuration: target format, quality level, optional maximum
/// width and height, and the minimum-savings threshold in whole percent.
#[derive(Clone, Copy, Debug)]
pub struct CompressionRequest {
    pub format: OutputFormat,
    pub quality: u8,
    pub max_width: Option<u32>,
    pub max_height: Option<u32>,
    pub min_savings_percent: u8,
}

impl CompressionRequest {
    /// A validated request: the quality lies in 1..=100 and any size bound
    /// is at least one pixel.
    pub open spec fn wf(self) -> bool {
        &&& 1 <= self.quality <= 100
        &&& self.max_width != Some(0u32)
        &&& self.max_height != Some(0u32)
    }

    /// Validate and build a request. Fails exactly when the quality lies
    /// outside 1..=100 or a size bound is zero; quality is checked first.
    pub fn new(
        format: OutputFormat,
        quality: u8,
        max_width: Option<u32>,
        max_height: Option<u32>,
        min_savings_percent: u8,
    ) -> (r: Result<CompressionRequest, ConfigError>)
        ensures
            r matches Ok(req) ==> {
                &&& req == (CompressionRequest { format, quality, max_width, max_height, min_savings_percent })
                &&& req.wf()
            },
            r is Ok <==> (1 <= quality <= 100 && max_width != Some(0u32) && max_height != Some(
                0u32,
            )),
            r matches Err(e) ==> (e is QualityOutOfRange <==> !(1 <= quality <= 100)),
    {
        if quality < 1 || quality > 100 {
            return Err(ConfigError::QualityOutOfRange);
        }
        let zero_w = match max_width {
            Some(w) => w == 0,
            None => false,
        };
        let zero_h = match max_height {
            Some(h) => h == 0,
            None => false,
        };
        if zero_w || zero_h {
            return Err(ConfigError::ZeroSizeBound);
        }
        Ok(CompressionRequest { format, quality, max_width, max_height, min_savings_percent })
    }
}

} // verus!
