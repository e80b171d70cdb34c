//! Hardware encoder capability selection and invocation-argument planning.

use vstd::prelude::*;
use crate::text::contains_chars;
use crate::text::contains_str;
use crate::text::str_eq;

verus! {

/// Available encoding backends for H.264 video, ordered by preference.
#[derive(Debug, Clone, Copy, PartialEq, Eq, Structural)]
pub enum HardwareEncoder {
    /// VideoToolbox, the macOS hardware encoder (Apple Silicon and Intel).
    VideoToolbox,
    /// NVENC, the NVIDIA GPU hardware encoder.
    Nvenc,
    /// Quick Sync, the Intel integrated GPU hardware encoder.
    QuickSync,
    /// AMF, the AMD GPU hardware encoder.
    Amf,
    /// Software encoding fallback (libx264); always available.
    Software,
}

/// The engine's H.264 codec identifier for each backend.
pub open spec fn h264_encoder_name(e: HardwareEncoder) -> Seq<char> {
    match e {
        HardwareEncoder::VideoToolbox => "h264_videotoolbox"@,
        HardwareEncoder::Nvenc => "h264_nvenc"@,
        HardwareEncoder::QuickSync => "h264_qsv"@,
        HardwareEncoder::Amf => "h264_amf"@,
        HardwareEncoder::Software => "libx264"@,
    }
}

/// A human-readable name for each backend.
pub open spec fn encoder_display_name(e: HardwareEncoder) -> Seq<char> {
    match e {
        HardwareEncoder::VideoToolbox => "VideoToolbox (Apple)"@,
        HardwareEncoder::Nvenc => "NVENC (NVIDIA)"@,
        HardwareEncoder::QuickSync => "Quick Sync (Intel)"@,
        HardwareEncoder::Amf => "AMF (AMD)"@,
        HardwareEncoder::Software => "Software (libx264)"@,
    }
}

impl HardwareEncoder {
    /// Returns the engine's encoder identifier for H.264.
    pub fn h264_encoder(&self) -> (r: &'static str)
        ensures
            r@ == h264_encoder_name(*self),
    {
        match self {
            HardwareEncoder::VideoToolbox => "h264_videotoolbox",
            HardwareEncoder::Nvenc => "h264_nvenc",
            HardwareEncoder::QuickSync => "h264_qsv",
            HardwareEncoder::Amf => "h264_amf",
            HardwareEncoder::Software => "libx264",
        }
    }

    /// Returns a human-readable name for the encoder.
    pub fn name(&self) -> (r: &'static str)
        ensures
            r@ == encoder_display_name(*self),
    {
        match self {
            HardwareEncoder::VideoToolbox => "VideoToolbox (Apple)",
            HardwareEncoder::Nvenc => "NVENC (NVIDIA)",
            HardwareEncoder::QuickSync => "Quick Sync (Intel)",
            HardwareEncoder::Amf => "AMF (AMD)",
            HardwareEncoder::Software => "Software (libx264)",
        }
    }

    /// Returns true if this is a hardware encoder.
    pub fn is_hardware(&self) -> (r: bool)
        ensures
            r == (*self != HardwareEncoder::Software),
    {
        !matches!(self, HardwareEncoder::Software)
    }
}

impl Default for HardwareEncoder {
    fn default() -> (r: Self)
        ensures
            r == HardwareEncoder::Software,
    {
        HardwareEncoder::Software
    }
}

/// The backend selected for a host, given the engine's encoder listing: the
/// first capability in preference order whose identifier appears in the
/// listing, restricted by platform, with software as the terminal fallback.
pub open spec fn spec_detect_encoder(is_macos: bool, listing: Seq<char>) -> HardwareEncoder {
    if is_macos && contains_chars(listing, "h264_videotoolbox"@) {
        HardwareEncoder::VideoToolbox
    } else if contains_chars(listing, "h264_nvenc"@) {
        HardwareEncoder::Nvenc
    } else if contains_chars(listing, "h264_qsv"@) {
        HardwareEncoder::QuickSync
    } else if contains_chars(listing, "h264_amf"@) {
        HardwareEncoder::Amf
    } else {
        HardwareEncoder::Software
    }
}

/// Detects the best available hardware encoder from the engine's encoder
/// listing text (the output of its "list encoders" probe).
///
/// A caller whose probe failed to run, or exited unsuccessfully, passes an
/// empty listing; no identifier occurs in it, so the software fallback is
/// selected, never an error.  The platform-native backend is attempted only
/// when `is_macos` says the host owns it.
pub fn detect_hardware_encoder(is_macos: bool, encoder_listing: &str) -> (r: HardwareEncoder)
    ensures
        r == spec_detect_encoder(is_macos, encoder_listing@),
{
    if is_macos && contains_str(encoder_listing, "h264_videotoolbox") {
        return HardwareEncoder::VideoToolbox;
    }
    if contains_str(encoder_listing, "h264_nvenc") {
        return HardwareEncoder::Nvenc;
    }
    if contains_str(encoder_listing, "h264_qsv") {
        return HardwareEncoder::QuickSync;
    }
    if contains_str(encoder_listing, "h264_amf") {
        return HardwareEncoder::Amf;
    }
    HardwareEncoder::Software
}

/// The engine invocation arguments that a (quality name, backend) pair plans
/// to: a codec selection, the backend's own rate-control knobs for the
/// quality tier, and an audio stream-copy directive.  Total: any unknown
/// quality name falls back to the most quality-preserving tier.
pub open spec fn spec_codec_args(q: Seq<char>, e: HardwareEncoder) -> Seq<Seq<char>> {
    match e {
        HardwareEncoder::VideoToolbox => seq![
            "-c:v"@,
            "h264_videotoolbox"@,
            "-b:v"@,
            if q == "high"@ {
                "15M"@
            } else if q == "medium"@ {
                "10M"@
            } else {
                "25M"@
            },
            "-allow_sw"@,
            "1"@,
            "-c:a"@,
            "copy"@,
        ],
        HardwareEncoder::Nvenc => seq![
            "-c:v"@,
            "h264_nvenc"@,
            "-preset"@,
            if q == "medium"@ {
                "p4"@
            } else {
                "p7"@
            },
            "-cq"@,
            if q == "high"@ {
                "18"@
            } else if q == "medium"@ {
                "23"@
            } else {
                "15"@
            },
            "-c:a"@,
            "copy"@,
        ],
        HardwareEncoder::QuickSync => seq![
            "-c:v"@,
            "h264_qsv"@,
            "-global_quality"@,
            if q == "high"@ {
                "18"@
            } else if q == "medium"@ {
                "23"@
            } else {
                "15"@
            },
            "-look_ahead"@,
            "1"@,
            "-c:a"@,
            "copy"@,
        ],
        HardwareEncoder::Amf => {
            let qp = if q == "high"@ {
                "18"@
            } else if q == "medium"@ {
                "23"@
            } else {
                "15"@
            };
            seq![
                "-c:v"@,
                "h264_amf"@,
                "-rc"@,
                "cqp"@,
                "-qp_i"@,
                qp,
                "-qp_p"@,
                qp,
                "-c:a"@,
                "copy"@,
            ]
        },
        HardwareEncoder::Software => seq![
            "-c:v"@,
            "libx264"@,
            "-crf"@,
            if q == "high"@ {
                "18"@
            } else if q == "medium"@ {
                "23"@
            } else {
                "0"@
            },
            "-preset"@,
            if q == "high"@ {
                "slow"@
            } else if q == "medium"@ {
                "medium"@
            } else {
                "veryslow"@
            },
            "-c:a"@,
            "copy"@,
        ],
    }
}

/// Returns the engine codec arguments for the given quality name and
/// encoder.  Pure planning, no input is rejected: an unknown quality name
/// selects the most quality-preserving tier of the backend.
pub fn get_codec_args(quality: &str, encoder: &HardwareEncoder) -> (r: Vec<String>)
    ensures
        r.deep_view() == spec_codec_args(quality@, *encoder),
{
    let high = str_eq(quality, "high");
    let medium = str_eq(quality, "medium");
    let mut v: Vec<String> = Vec::new();
    v.push(String::from_str("-c:v"));
    match encoder {
        HardwareEncoder::VideoToolbox => {
            v.push(String::from_str("h264_videotoolbox"));
            v.push(String::from_str("-b:v"));
            if high {
                v.push(String::from_str("15M"));
            } else if medium {
                v.push(String::from_str("10M"));
            } else {
                v.push(String::from_str("25M"));
            }
            v.push(String::from_str("-allow_sw"));
            v.push(String::from_str("1"));
        },
        HardwareEncoder::Nvenc => {
            v.push(String::from_str("h264_nvenc"));
            v.push(String::from_str("-preset"));
            if medium {
                v.push(String::from_str("p4"));
            } else {
                v.push(String::from_str("p7"));
            }
            v.push(String::from_str("-cq"));
            if high {
                v.push(String::from_str("18"));
            } else if medium {
                v.push(String::from_str("23"));
            } else {
                v.push(String::from_str("15"));
            }
        },
        HardwareEncoder::QuickSync => {
            v.push(String::from_str("h264_qsv"));
            v.push(String::from_str("-global_quality"));
            if high {
                v.push(String::from_str("18"));
            } else if medium {
                v.push(String::from_str("23"));
            } else {
                v.push(String::from_str("15"));
            }
            v.push(String::from_str("-look_ahead"));
            v.push(String::from_str("1"));
        },
        HardwareEncoder::Amf => {
            v.push(String::from_str("h264_amf"));
            v.push(String::from_str("-rc"));
            v.push(String::from_str("cqp"));
            v.push(String::from_str("-qp_i"));
            if high {
                v.push(String::from_str("18"));
            } else if medium {
                v.push(String::from_str("23"));
            } else {
                v.push(String::from_str("15"));
            }
            v.push(String::from_str("-qp_p"));
            if high {
                v.push(String::from_str("18"));
            } else if medium {
                v.push(String::from_str("23"));
            } else {
                v.push(String::from_str("15"));
            }
        },
        HardwareEncoder::Software => {
            v.push(String::from_str("libx264"));
            v.push(String::from_str("-crf"));
            if high {
                v.push(String::from_str("18"));
            } else if medium {
                v.push(String::from_str("23"));
            } else {
                v.push(String::from_str("0"));
            }
            v.push(String::from_str("-preset"));
            if high {
                v.push(String::from_str("slow"));
            } else if medium {
                v.push(String::from_str("medium"));
            } else {
                v.push(String::from_str("veryslow"));
            }
        },
    }
    v.push(String::from_str("-c:a"));
    v.push(String::from_str("copy"));
    proof {
        assert(v.deep_view() =~= spec_codec_args(quality@, *encoder));
    }
    v
}

proof fn lemma_args_literals_differ()
    ensures
        "h264_videotoolbox"@ != "-c:v"@,
        "h264_nvenc"@ != "-c:v"@,
        "h264_qsv"@ != "-c:v"@,
        "h264_amf"@ != "-c:v"@,
        "libx264"@ != "-c:v"@,
        "-b:v"@ != "-c:v"@,
        "15M"@ != "-c:v"@,
        "10M"@ != "-c:v"@,
        "25M"@ != "-c:v"@,
        "-allow_sw"@ != "-c:v"@,
        "1"@ != "-c:v"@,
        "-c:a"@ != "-c:v"@,
        "copy"@ != "-c:v"@,
        "-preset"@ != "-c:v"@,
        "p4"@ != "-c:v"@,
        "p7"@ != "-c:v"@,
        "-cq"@ != "-c:v"@,
        "18"@ != "-c:v"@,
        "23"@ != "-c:v"@,
        "15"@ != "-c:v"@,
        "-global_quality"@ != "-c:v"@,
        "-look_ahead"@ != "-c:v"@,
        "-rc"@ != "-c:v"@,
        "cqp"@ != "-c:v"@,
        "-qp_i"@ != "-c:v"@,
        "-qp_p"@ != "-c:v"@,
        "-crf"@ != "-c:v"@,
        "0"@ != "-c:v"@,
        "slow"@ != "-c:v"@,
        "medium"@ != "-c:v"@,
        "veryslow"@ != "-c:v"@,
{
    reveal_strlit("-c:v");
    reveal_strlit("h264_videotoolbox");
    reveal_strlit("h264_nvenc");
    reveal_strlit("h264_qsv");
    reveal_strlit("h264_amf");
    reveal_strlit("libx264");
    reveal_strlit("-b:v");
    reveal_strlit("15M");
    reveal_strlit("10M");
    reveal_strlit("25M");
    reveal_strlit("-allow_sw");
    reveal_strlit("1");
    reveal_strlit("-c:a");
    reveal_strlit("copy");
    reveal_strlit("-preset");
    reveal_strlit("p4");
    reveal_strlit("p7");
    reveal_strlit("-cq");
    reveal_strlit("18");
    reveal_strlit("23");
    reveal_strlit("15");
    reveal_strlit("-global_quality");
    reveal_strlit("-look_ahead");
    reveal_strlit("-rc");
    reveal_strlit("cqp");
    reveal_strlit("-qp_i");
    reveal_strlit("-qp_p");
    reveal_strlit("-crf");
    reveal_strlit("0");
    reveal_strlit("slow");
    reveal_strlit("medium");
    reveal_strlit("veryslow");
    assert("-b:v"@[1] != "-c:v"@[1]);
    assert("-c:a"@[3] != "-c:v"@[3]);
    assert("copy"@[0] != "-c:v"@[0]);
    assert("slow"@[0] != "-c:v"@[0]);
    assert("-crf"@[2] != "-c:v"@[2]);
    assert("-qp_i"@.len() != "-c:v"@.len());
    assert("-qp_p"@.len() != "-c:v"@.len());
}

/// Argument Planner totality law: for every quality name and every
/// capability, the planned argument sequence is non-empty, holds exactly one
/// video-codec selection (the leading `-c:v` pair, and no other `-c:v`
/// anywhere), and ends with the audio stream-copy directive `-c:a copy`.
pub proof fn lemma_planner_total(q: Seq<char>, e: HardwareEncoder)
    ensures
        spec_codec_args(q, e).len() > 2,
        spec_codec_args(q, e)[0] == "-c:v"@,
        forall|i: int|
            1 <= i < spec_codec_args(q, e).len() ==> spec_codec_args(q, e)[i] != "-c:v"@,
        spec_codec_args(q, e)[spec_codec_args(q, e).len() - 2] == "-c:a"@,
        spec_codec_args(q, e)[spec_codec_args(q, e).len() - 1] == "copy"@,
{
    lemma_args_literals_differ();
    let a = spec_codec_args(q, e);
    match e {
        HardwareEncoder::VideoToolbox => {
            assert forall|i: int| 1 <= i < a.len() implies a[i] != "-c:v"@ by {
                assert(a.len() == 8);
            }
        },
        HardwareEncoder::Nvenc => {
            assert forall|i: int| 1 <= i < a.len() implies a[i] != "-c:v"@ by {
                assert(a.len() == 8);
            }
        },
        HardwareEncoder::QuickSync => {
            assert forall|i: int| 1 <= i < a.len() implies a[i] != "-c:v"@ by {
                assert(a.len() == 8);
            }
        },
        HardwareEncoder::Amf => {
            assert forall|i: int| 1 <= i < a.len() implies a[i] != "-c:v"@ by {
                assert(a.len() == 10);
            }
        },
        HardwareEncoder::Software => {
            assert forall|i: int| 1 <= i < a.len() implies a[i] != "-c:v"@ by {
                assert(a.len() == 8);
            }
        },
    }
}

} // verus!
