//! Configuration types for video processing: quality presets, split sides
//! and the processing configuration carried by a run.

use vstd::prelude::*;
use crate::error::ObsCutterError;
use crate::text::name_matches;
use crate::text::eq_ignore_ascii_case;

verus! {

/// Quality preset for video encoding.
#[derive(Debug, Clone, Copy, PartialEq, Eq, Structural)]
pub enum Quality {
    /// Most quality-preserving point each backend supports.  Largest files.
    Lossless,
    /// High quality, a good balance between quality and file size.
    High,
    /// Medium quality, smaller files.
    Medium,
}

/// The name of a quality preset.
pub open spec fn quality_name(q: Quality) -> Seq<char> {
    match q {
        Quality::Lossless => "lossless"@,
        Quality::High => "high"@,
        Quality::Medium => "medium"@,
    }
}

/// The preset a name selects, up to ASCII case; `None` for unknown names.
pub open spec fn quality_of_name(s: Seq<char>) -> Option<Quality> {
    if name_matches(s, "lossless"@) {
        Some(Quality::Lossless)
    } else if name_matches(s, "high"@) {
        Some(Quality::High)
    } else if name_matches(s, "medium"@) {
        Some(Quality::Medium)
    } else {
        None
    }
}

impl Quality {
    /// Returns the quality preset's name.
    pub fn as_str(&self) -> (r: &'static str)
        ensures
            r@ == quality_name(*self),
    {
        match self {
            Quality::Lossless => "lossless",
            Quality::High => "high",
            Quality::Medium => "medium",
        }
    }

    /// Returns all available quality presets.
    pub fn all() -> (r: Vec<Quality>)
        ensures
            r@ == seq![Quality::Lossless, Quality::High, Quality::Medium],
    {
        let mut v: Vec<Quality> = Vec::new();
        v.push(Quality::Lossless);
        v.push(Quality::High);
        v.push(Quality::Medium);
        assert(v@ =~= seq![Quality::Lossless, Quality::High, Quality::Medium]);
        v
    }

    /// Selects the preset named by `s`, ignoring ASCII case; an unknown name
    /// is rejected with `InvalidQuality` carrying the name unchanged.
    pub fn parse_name(s: &str) -> (r: Result<Quality, ObsCutterError>)
        ensures
            match quality_of_name(s@) {
                Some(q) => r == Ok::<Quality, ObsCutterError>(q),
                None => r matches Err(ObsCutterError::InvalidQuality(m)) && m@ == s@,
            },
    {
        if eq_ignore_ascii_case(s, "lossless") {
            Ok(Quality::Lossless)
        } else if eq_ignore_ascii_case(s, "high") {
            Ok(Quality::High)
        } else if eq_ignore_ascii_case(s, "medium") {
            Ok(Quality::Medium)
        } else {
            Err(ObsCutterError::InvalidQuality(s.to_owned()))
        }
    }
}

impl Default for Quality {
    /// The default preset is the most quality-preserving one.
    fn default() -> (r: Self)
        ensures
            r == Quality::Lossless,
    {
        Quality::Lossless
    }
}

impl core::str::FromStr for Quality {
    type Err = ObsCutterError;

    fn from_str(s: &str) -> Result<Self, ObsCutterError> {
        Quality::parse_name(s)
    }
}

/// Which side of the combined recording to extract.
#[derive(Debug, Clone, Copy, PartialEq, Eq, Structural)]
pub enum Side {
    /// Left half of the video (crop origin x = 0).
    Left,
    /// Right half of the video (crop origin x = 1920).
    Right,
}

/// The name of a split side.
pub open spec fn side_name(side: Side) -> Seq<char> {
    match side {
        Side::Left => "left"@,
        Side::Right => "right"@,
    }
}

/// The crop filter text handed to the engine for a split side.
pub open spec fn side_crop_filter(side: Side) -> Seq<char> {
    match side {
        Side::Left => "crop=1920:1080:0:0"@,
        Side::Right => "crop=1920:1080:1920:0"@,
    }
}

/// The side a name selects, up to ASCII case; `None` for unknown names.
pub open spec fn side_of_name(s: Seq<char>) -> Option<Side> {
    if name_matches(s, "left"@) {
        Some(Side::Left)
    } else if name_matches(s, "right"@) {
        Some(Side::Right)
    } else {
        None
    }
}

impl Side {
    /// Returns the side's name.
    pub fn as_str(&self) -> (r: &'static str)
        ensures
            r@ == side_name(*self),
    {
        match self {
            Side::Left => "left",
            Side::Right => "right",
        }
    }

    /// Returns the engine's crop filter for this side.  The crop rule is
    /// fixed; callers validate the input's real dimensions separately.
    pub fn crop_filter(&self) -> (r: &'static str)
        ensures
            r@ == side_crop_filter(*self),
    {
        match self {
            Side::Left => "crop=1920:1080:0:0",
            Side::Right => "crop=1920:1080:1920:0",
        }
    }

    /// Selects the side named by `s`, ignoring ASCII case; an unknown name
    /// is rejected with `InvalidSide` carrying the name unchanged.
    pub fn parse_name(s: &str) -> (r: Result<Side, ObsCutterError>)
        ensures
            match side_of_name(s@) {
                Some(side) => r == Ok::<Side, ObsCutterError>(side),
                None => r matches Err(ObsCutterError::InvalidSide(m)) && m@ == s@,
            },
    {
        if eq_ignore_ascii_case(s, "left") {
            Ok(Side::Left)
        } else if eq_ignore_ascii_case(s, "right") {
            Ok(Side::Right)
        } else {
            Err(ObsCutterError::InvalidSide(s.to_owned()))
        }
    }
}

impl Default for Side {
    fn default() -> (r: Self)
        ensures
            r == Side::Left,
    {
        Side::Left
    }
}

impl core::str::FromStr for Side {
    type Err = ObsCutterError;

    fn from_str(s: &str) -> Result<Self, ObsCutterError> {
        Side::parse_name(s)
    }
}

/// Configuration for video processing.
#[derive(Debug, Clone)]
pub struct ProcessingConfig {
    /// Quality preset for encoding.
    pub quality: Quality,
    /// Output format (file extension).  If `None`, the input format is kept.
    pub output_format: Option<String>,
    /// Output directory.  If `None`, each input file's directory is used.
    pub output_dir: Option<String>,
    /// Whether to use hardware acceleration.
    pub use_hardware_accel: bool,
}

impl Default for ProcessingConfig {
    fn default() -> (r: Self)
        ensures
            r.quality == Quality::Lossless,
            r.output_format is None,
            r.output_dir is None,
            r.use_hardware_accel == true,
    {
        ProcessingConfig {
            quality: Quality::Lossless,
            output_format: None,
            output_dir: None,
            use_hardware_accel: true,
        }
    }
}

impl ProcessingConfig {
    /// Creates a configuration with the default values.
    pub fn new() -> (r: Self)
        ensures
            r.quality == Quality::Lossless,
            r.output_format is None,
            r.output_dir is None,
            r.use_hardware_accel == true,
    {
        Self::default()
    }

    /// Sets the quality preset.
    pub fn with_quality(self, quality: Quality) -> (r: Self)
        ensures
            r.quality == quality,
            r.output_format == self.output_format,
            r.output_dir == self.output_dir,
            r.use_hardware_accel == self.use_hardware_accel,
    {
        ProcessingConfig { quality, ..self }
    }

    /// Sets the output format.
    pub fn with_output_format(self, format: Option<String>) -> (r: Self)
        ensures
            r.quality == self.quality,
            r.output_format == format,
            r.output_dir == self.output_dir,
            r.use_hardware_accel == self.use_hardware_accel,
    {
        ProcessingConfig { output_format: format, ..self }
    }

    /// Sets the output directory.
    pub fn with_output_dir(self, dir: Option<String>) -> (r: Self)
        ensures
            r.quality == self.quality,
            r.output_format == self.output_format,
            r.output_dir == dir,
            r.use_hardware_accel == self.use_hardware_accel,
    {
        ProcessingConfig { output_dir: dir, ..self }
    }

    /// Sets whether to use hardware acceleration.
    pub fn with_hardware_accel(self, enabled: bool) -> (r: Self)
        ensures
            r.quality == self.quality,
            r.output_format == self.output_format,
            r.output_dir == self.output_dir,
            r.use_hardware_accel == enabled,
    {
        ProcessingConfig { use_hardware_accel: enabled, ..self }
    }
}

} // verus!
