//! High-performance media probe: a provider that reports technical
//! details of a media file by optimization level. The figures per
//! level are fixed, so the whole report is a function of the level and
//! the query.

use vstd::prelude::*;

verus! {

/// How aggressively the probe assumes the media was encoded.
#[derive(Debug, Clone, Copy, PartialEq, Eq, Structural)]
pub enum OptimizationLevel {
    Low,
    Medium,
    High,
    Ultra,
}

impl Default for OptimizationLevel {
    /// The middle of the road.
    fn default() -> (r: Self)
        ensures
            r == OptimizationLevel::Medium,
    {
        OptimizationLevel::Medium
    }
}

/// The probe provider: the query it reports on, an optional API key,
/// and the assumed optimization level.
#[derive(Debug, Clone)]
pub struct HPMediaProvider {
    pub api_key: Option<String>,
    pub query: String,
    pub optimization_level: OptimizationLevel,
}

/// Technical details of a media file. The frame rate is whole frames
/// per second.
#[derive(Debug, Clone)]
pub struct HPMediaDetails {
    pub title: String,
    pub resolution: Option<String>,
    pub bitrate: Option<u32>,
    pub codec: Option<String>,
    pub frame_rate: Option<u32>,
    pub audio_channels: Option<u8>,
    pub audio_codec: Option<String>,
    pub hdr: Option<bool>,
    pub file_size: Option<u64>,
}

impl HPMediaProvider {
    /// A probe for a query, at the default level.
    pub fn new(query: String, api_key: Option<String>) -> (r: HPMediaProvider)
        ensures
            r.query == query,
            r.api_key == api_key,
            r.optimization_level == OptimizationLevel::Medium,
    {
        HPMediaProvider { query, api_key, optimization_level: OptimizationLevel::Medium }
    }

    /// The same probe at another level.
    pub fn with_optimization_level(self, level: OptimizationLevel) -> (r: HPMediaProvider)
        ensures
            r.optimization_level == level,
            r.query == self.query,
            r.api_key == self.api_key,
    {
        HPMediaProvider { optimization_level: level, ..self }
    }

    /// The technical details the probe reports: fixed figures per
    /// level, with the query woven into the title.
    pub fn probe_details(&self) -> (r: HPMediaDetails)
        ensures
            match self.optimization_level {
                OptimizationLevel::Ultra => {
                    &&& r.title@ == "Ultra HD - "@ + self.query@
                    &&& r.resolution matches Some(v) && v@ == "3840x2160"@
                    &&& r.bitrate == Some(80000u32)
                    &&& r.codec matches Some(c) && c@ == "H.265/HEVC"@
                    &&& r.frame_rate == Some(60u32)
                    &&& r.audio_channels == Some(7u8)
                    &&& r.audio_codec matches Some(a) && a@ == "Dolby Atmos"@
                    &&& r.hdr == Some(true)
                    &&& r.file_size == Some(40000000000u64)
                },
                OptimizationLevel::High => {
                    &&& r.title@ == "High Performance - "@ + self.query@
                    &&& r.resolution matches Some(v) && v@ == "1920x1080"@
                    &&& r.bitrate == Some(25000u32)
                    &&& r.codec matches Some(c) && c@ == "H.264/AVC"@
                    &&& r.frame_rate == Some(60u32)
                    &&& r.audio_channels == Some(5u8)
                    &&& r.audio_codec matches Some(a) && a@ == "DTS-HD"@
                    &&& r.hdr == Some(false)
                    &&& r.file_size == Some(15000000000u64)
                },
                OptimizationLevel::Medium => {
                    &&& r.title@ == "Standard - "@ + self.query@
                    &&& r.resolution matches Some(v) && v@ == "1280x720"@
                    &&& r.bitrate == Some(8000u32)
                    &&& r.codec matches Some(c) && c@ == "H.264/AVC"@
                    &&& r.frame_rate == Some(30u32)
                    &&& r.audio_channels == Some(2u8)
                    &&& r.audio_codec matches Some(a) && a@ == "AAC"@
                    &&& r.hdr == Some(false)
                    &&& r.file_size == Some(4000000000u64)
                },
                OptimizationLevel::Low => {
                    &&& r.title@ == "Low Performance - "@ + self.query@
                    &&& r.resolution matches Some(v) && v@ == "854x480"@
                    &&& r.bitrate == Some(2000u32)
                    &&& r.codec matches Some(c) && c@ == "H.264/AVC"@
                    &&& r.frame_rate == Some(24u32)
                    &&& r.audio_channels == Some(2u8)
                    &&& r.audio_codec matches Some(a) && a@ == "AAC"@
                    &&& r.hdr == Some(false)
                    &&& r.file_size == Some(1500000000u64)
                },
            },
    {
        match self.optimization_level {
            OptimizationLevel::Ultra => HPMediaDetails {
                title: String::from_str("Ultra HD - ").concat(self.query.as_str()),
                resolution: Some(String::from_str("3840x2160")),
                bitrate: Some(80000),
                codec: Some(String::from_str("H.265/HEVC")),
                frame_rate: Some(60),
                audio_channels: Some(7),
                audio_codec: Some(String::from_str("Dolby Atmos")),
                hdr: Some(true),
                file_size: Some(40000000000),
            },
            OptimizationLevel::High => HPMediaDetails {
                title: String::from_str("High Performance - ").concat(self.query.as_str()),
                resolution: Some(String::from_str("1920x1080")),
                bitrate: Some(25000),
                codec: Some(String::from_str("H.264/AVC")),
                frame_rate: Some(60),
                audio_channels: Some(5),
                audio_codec: Some(String::from_str("DTS-HD")),
                hdr: Some(false),
                file_size: Some(15000000000),
            },
            OptimizationLevel::Medium => HPMediaDetails {
                title: String::from_str("Standard - ").concat(self.query.as_str()),
                resolution: Some(String::from_str("1280x720")),
                bitrate: Some(8000),
                codec: Some(String::from_str("H.264/AVC")),
                frame_rate: Some(30),
                audio_channels: Some(2),
                audio_codec: Some(String::from_str("AAC")),
                hdr: Some(false),
                file_size: Some(4000000000),
            },
            OptimizationLevel::Low => HPMediaDetails {
                title: String::from_str("Low Performance - ").concat(self.query.as_str()),
                resolution: Some(String::from_str("854x480")),
                bitrate: Some(2000),
                codec: Some(String::from_str("H.264/AVC")),
                frame_rate: Some(24),
                audio_channels: Some(2),
                audio_codec: Some(String::from_str("AAC")),
                hdr: Some(false),
                file_size: Some(1500000000),
            },
        }
    }
}

} // verus!
