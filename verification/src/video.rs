//! Video analysis and split-invocation support: stream selection from probe
//! listings, invocation argument building, diagnostic-chunk handling for the
//! split executor, and human-readable formatting of results.

use vstd::prelude::*;
use crate::config::Quality;
use crate::config::Side;
use crate::config::quality_name;
use crate::config::side_crop_filter;
use crate::config::side_name;
use crate::encoder::HardwareEncoder;
use crate::encoder::get_codec_args;
use crate::encoder::spec_codec_args;
use crate::error::ObsCutterError;
use crate::progress::EncodingProgress;
use crate::progress::FfmpegProgressParser;
use crate::progress::dd_run_end;
use crate::progress::decimal_token_centis;
use crate::progress::decimal_token_eval;
use crate::progress::decimal_token_valid;
use crate::progress::feed_all_state;
use crate::progress::skip_spaces;
use crate::progress::spec_step_output;
use crate::progress::spec_step_state;
use crate::text::dec_chars;
use crate::text::lemma_run_while;
use crate::text::run_while;
use crate::text::two_dec_chars;
use crate::text::u64_to_string;
use crate::text::u64_to_two_digit_string;

verus! {

// ---------------------------------------------------------------------------
// Probe stream selection
// ---------------------------------------------------------------------------

/// One stream descriptor from the engine's structured probe listing,
/// reduced to the plain values the selection logic reads.
#[derive(Debug, Clone)]
pub struct StreamInfo {
    /// Frame width in pixels, when the descriptor carries one.
    pub width: Option<u32>,
    /// Frame height in pixels, when the descriptor carries one.
    pub height: Option<u32>,
    /// Codec name, such as `h264`.
    pub codec_name: String,
    /// Stream type, such as `video` or `audio`, when carried.
    pub codec_type: Option<String>,
}

/// Video file information produced by probing.
#[derive(Debug, Clone)]
pub struct VideoInfo {
    /// Path of the video file.
    pub path: String,
    /// Video width in pixels.
    pub width: u32,
    /// Video height in pixels.
    pub height: u32,
    /// Video codec name.
    pub codec: String,
    /// File size in bytes, if available.
    pub file_size: Option<u64>,
}

/// A descriptor usable as the video stream: typed `video` and carrying both
/// dimensions.
pub open spec fn is_video_stream(s: StreamInfo) -> bool {
    &&& s.codec_type matches Some(t) && t@ == "video"@
    &&& s.width is Some
    &&& s.height is Some
}

/// Index of the first usable video stream at or after `i`.
pub open spec fn first_video_stream(ss: Seq<StreamInfo>, i: int) -> Option<int>
    decreases ss.len() - i,
{
    if i < 0 || i >= ss.len() {
        None
    } else if is_video_stream(ss[i]) {
        Some(i)
    } else {
        first_video_stream(ss, i + 1)
    }
}

/// Selects the video stream from a probe listing: the first descriptor
/// typed `video` that carries both dimensions.  A listing without one is a
/// hard failure, `NoVideoStream`.
pub fn select_video_stream(streams: &Vec<StreamInfo>, path: &str, file_size: Option<u64>) -> (r:
    Result<VideoInfo, ObsCutterError>)
    ensures
        match first_video_stream(streams@, 0) {
            Some(i) => r matches Ok(v) && v.path@ == path@ && Some(v.width) == streams@[i].width
                && Some(v.height) == streams@[i].height && v.codec@ == streams@[i].codec_name@
                && v.file_size == file_size,
            None => r == Err::<VideoInfo, ObsCutterError>(ObsCutterError::NoVideoStream),
        },
{
    let n = streams.len();
    let mut i: usize = 0;
    while i < n
        invariant
            n == streams@.len(),
            0 <= i <= n,
            first_video_stream(streams@, 0) == first_video_stream(streams@, i as int),
        decreases n - i,
    {
        let s = &streams[i];
        let is_video = match &s.codec_type {
            Some(t) => crate::text::str_eq(t.as_str(), "video"),
            None => false,
        };
        if is_video && s.width.is_some() && s.height.is_some() {
            assert(is_video_stream(streams@[i as int]));
            assert(first_video_stream(streams@, i as int) == Some(i as int));
            let width = match s.width {
                Some(w) => w,
                None => 0,
            };
            let height = match s.height {
                Some(h) => h,
                None => 0,
            };
            return Ok(
                VideoInfo {
                    path: path.to_owned(),
                    width,
                    height,
                    codec: s.codec_name.clone(),
                    file_size,
                },
            );
        }
        assert(!is_video_stream(streams@[i as int]));
        assert(first_video_stream(streams@, i as int) == first_video_stream(streams@, i + 1));
        i += 1;
    }
    assert(first_video_stream(streams@, i as int) is None);
    Err(ObsCutterError::NoVideoStream)
}

/// Greatest common divisor.
pub open spec fn spec_gcd(a: nat, b: nat) -> nat
    decreases b,
{
    if b == 0 {
        a
    } else {
        spec_gcd(b, (a % b) as nat)
    }
}

/// Computes the greatest common divisor by Euclid's rule.
pub fn gcd(a: u32, b: u32) -> (r: u32)
    ensures
        r == spec_gcd(a as nat, b as nat),
    decreases b,
{
    if b == 0 {
        a
    } else {
        gcd(b, a % b)
    }
}

proof fn lemma_gcd_pos(a: nat, b: nat)
    requires
        a > 0 || b > 0,
    ensures
        spec_gcd(a, b) > 0,
    decreases b,
{
    if b > 0 {
        lemma_gcd_pos(b, (a % b) as nat);
    }
}

impl ProcessingResult {
    /// Copies the result, field for field.
    pub fn duplicate(&self) -> (r: Self)
        ensures
            r == *self,
    {
        ProcessingResult {
            input: self.input.clone(),
            left_output: self.left_output.clone(),
            right_output: self.right_output.clone(),
            left_size: self.left_size,
            right_size: self.right_size,
            duration_secs: self.duration_secs,
            encoder_used: self.encoder_used,
        }
    }
}

impl VideoInfo {
    /// True when the video has the expected side-by-side dimensions,
    /// 3840 by 1080.
    pub fn is_valid_dimensions(&self) -> (r: bool)
        ensures
            r == (self.width == 3840 && self.height == 1080),
    {
        self.width == 3840 && self.height == 1080
    }

    /// Renders the aspect ratio in lowest terms, as `16:9` for 1920 by
    /// 1080.
    pub fn aspect_ratio(&self) -> (r: String)
        requires
            self.width > 0 || self.height > 0,
        ensures
            ({
                let g = spec_gcd(self.width as nat, self.height as nat);
                r@ == dec_chars(self.width as int / g as int) + ":"@ + dec_chars(
                    self.height as int / g as int,
                )
            }),
    {
        proof {
            lemma_gcd_pos(self.width as nat, self.height as nat);
        }
        let g = gcd(self.width, self.height);
        let mut out = u64_to_string((self.width / g) as u64);
        out.append(":");
        let h = u64_to_string((self.height / g) as u64);
        out.append(h.as_str());
        out
    }
}

// ---------------------------------------------------------------------------
// Results and observer events
// ---------------------------------------------------------------------------

/// Result of processing a single input file; constructed only after both
/// sides completed successfully.
#[derive(Debug, Clone)]
pub struct ProcessingResult {
    /// Input video path.
    pub input: String,
    /// Left output video path.
    pub left_output: String,
    /// Right output video path.
    pub right_output: String,
    /// Left output file size in bytes.
    pub left_size: u64,
    /// Right output file size in bytes.
    pub right_size: u64,
    /// Wall-clock processing duration in seconds.
    pub duration_secs: u64,
    /// Encoder used for processing.
    pub encoder_used: HardwareEncoder,
}

/// Observer event during batch processing, carrying the batch position.
#[derive(Debug, Clone)]
pub enum ProcessingProgress {
    /// An input is being analyzed.
    Analyzing { video_index: usize, total: usize, path: String },
    /// One side of an input is being split.
    Processing { video_index: usize, total: usize, side: Side, path: String },
    /// An input completed; both outputs exist.
    Completed { video_index: usize, total: usize, result: ProcessingResult },
    /// An input failed with a human-readable message.
    Failed { video_index: usize, total: usize, path: String, error: String },
}

/// Receiver of progress events during processing.
pub trait ProgressCallback: Send + Sync {
    fn on_progress(&self, progress: ProcessingProgress);
}

// ---------------------------------------------------------------------------
// Split invocation arguments
// ---------------------------------------------------------------------------

/// The full engine invocation for one side split: input binding, the
/// side's crop filter, the planned codec arguments, the overwrite flag and
/// the output path.
pub open spec fn spec_split_args(
    input: Seq<char>,
    output: Seq<char>,
    side: Side,
    quality: Quality,
    e: HardwareEncoder,
) -> Seq<Seq<char>> {
    seq!["-i"@, input, "-vf"@, side_crop_filter(side)] + spec_codec_args(quality_name(quality), e)
        + seq!["-y"@, output]
}

/// Builds the engine argument list for splitting one side of `input` into
/// `output`.
pub fn build_split_args(
    input: &str,
    output: &str,
    side: Side,
    quality: Quality,
    encoder: &HardwareEncoder,
) -> (r: Vec<String>)
    ensures
        r.deep_view() == spec_split_args(input@, output@, side, quality, *encoder),
{
    let mut v: Vec<String> = Vec::new();
    v.push(String::from_str("-i"));
    v.push(input.to_owned());
    v.push(String::from_str("-vf"));
    v.push(side.crop_filter().to_owned());
    let mut codec = get_codec_args(quality.as_str(), encoder);
    v.append(&mut codec);
    v.push(String::from_str("-y"));
    v.push(output.to_owned());
    proof {
        assert(v.deep_view() =~= spec_split_args(input@, output@, side, quality, *encoder));
    }
    v
}

/// Output file name for one side: `<stem>-<side>.<ext>`.
pub open spec fn spec_output_file_name(stem: Seq<char>, side: Side, ext: Seq<char>) -> Seq<char> {
    stem + "-"@ + side_name(side) + "."@ + ext
}

/// Builds the output file name for one side from the input's stem and the
/// output extension.
pub fn output_file_name(stem: &str, side: Side, ext: &str) -> (r: String)
    ensures
        r@ == spec_output_file_name(stem@, side, ext@),
{
    let mut out = stem.to_owned();
    out.append("-");
    out.append(side.as_str());
    out.append(".");
    out.append(ext);
    out
}

// ---------------------------------------------------------------------------
// Diagnostic chunk handling for the split executor
// ---------------------------------------------------------------------------

/// Line separator in the engine's diagnostic stream: the engine overwrites
/// its status line in place with carriage returns, so both carriage return
/// and newline end a logical line.
pub open spec fn is_sep_char(c: char) -> bool {
    c == '\n' || c == '\r'
}

/// End of the separator-free run starting at `i`.
pub open spec fn frag_end(s: Seq<char>, i: int) -> int {
    run_while(s, i, |c: char| !is_sep_char(c))
}

/// The non-empty logical lines of a raw chunk, in order: maximal runs of
/// non-separator characters, empty fragments discarded.
pub open spec fn frags_from(s: Seq<char>, i: int) -> Seq<Seq<char>>
    decreases s.len() - i,
{
    if i < 0 || i >= s.len() {
        seq![]
    } else if is_sep_char(s[i]) {
        frags_from(s, i + 1)
    } else {
        let e = frag_end(s, i);
        if i < e <= s.len() {
            seq![s.subrange(i, e)] + frags_from(s, e)
        } else {
            seq![]
        }
    }
}

/// The non-empty logical lines of a raw chunk.
pub open spec fn spec_fragments(s: Seq<char>) -> Seq<Seq<char>> {
    frags_from(s, 0)
}

fn char_is_sep(c: char) -> (r: bool)
    ensures
        r == is_sep_char(c),
{
    c == '\n' || c == '\r'
}

fn frag_end_exec(s: &str, s_len: usize, start: usize) -> (j: usize)
    requires
        s_len == s@.len(),
        start <= s_len,
    ensures
        start <= j <= s_len,
        j == frag_end(s@, start as int),
{
    let mut j = start;
    while j < s_len && !char_is_sep(s.get_char(j))
        invariant
            s_len == s@.len(),
            start <= j <= s_len,
            frag_end(s@, start as int) == frag_end(s@, j as int),
        decreases s_len - j,
    {
        assert(frag_end(s@, j as int) == frag_end(s@, j + 1));
        j += 1;
    }
    assert(frag_end(s@, j as int) == j as int);
    j
}

/// Splits a raw diagnostic chunk into its non-empty logical lines,
/// breaking on both carriage returns and newlines.
pub fn split_fragments(chunk: &str) -> (out: Vec<String>)
    ensures
        out.deep_view() == spec_fragments(chunk@),
{
    let s_len = chunk.unicode_len();
    let mut out: Vec<String> = Vec::new();
    let mut i: usize = 0;
    while i < s_len
        invariant
            s_len == chunk@.len(),
            0 <= i <= s_len,
            spec_fragments(chunk@) =~= out.deep_view() + frags_from(chunk@, i as int),
        decreases s_len - i,
    {
        let c = chunk.get_char(i);
        if char_is_sep(c) {
            assert(frags_from(chunk@, i as int) == frags_from(chunk@, i + 1));
            i += 1;
        } else {
            let e = frag_end_exec(chunk, s_len, i);
            proof {
                assert(frag_end(chunk@, i as int) == frag_end(chunk@, i + 1));
                lemma_run_while(chunk@, i + 1, |c: char| !is_sep_char(c));
                assert(e > i);
            }
            let piece = chunk.substring_char(i, e).to_owned();
            let ghost prev = out.deep_view();
            out.push(piece);
            proof {
                assert(out.deep_view() =~= prev + seq![chunk@.subrange(i as int, e as int)]);
                assert(frags_from(chunk@, i as int) == seq![chunk@.subrange(i as int, e as int)]
                    + frags_from(chunk@, e as int));
            }
            i = e;
        }
    }
    proof {
        assert(frags_from(chunk@, i as int) =~= Seq::<Seq<char>>::empty());
        assert(out.deep_view() =~= spec_fragments(chunk@));
    }
    out
}

/// Snapshots the parser emits while being fed `lines` in order: one entry
/// per progress line, none for other lines, in arrival order.
pub open spec fn snapshots_of(p: FfmpegProgressParser, lines: Seq<Seq<char>>) -> Seq<
    EncodingProgress,
>
    decreases lines.len(),
{
    if lines.len() == 0 {
        seq![]
    } else {
        let rest = snapshots_of(spec_step_state(p, lines[0]), lines.drop_first());
        match spec_step_output(p, lines[0]) {
            Some(x) => seq![x] + rest,
            None => rest,
        }
    }
}

/// Splits a raw diagnostic chunk into logical lines and feeds each to the
/// parser in order; returns every snapshot that was recognized, in the
/// order the underlying lines arrived — no reordering, no batching, no
/// drops.
pub fn feed_chunk(parser: &mut FfmpegProgressParser, chunk: &str) -> (out: Vec<EncodingProgress>)
    ensures
        *final(parser) == feed_all_state(*old(parser), spec_fragments(chunk@)),
        out@ == snapshots_of(*old(parser), spec_fragments(chunk@)),
{
    let frags = split_fragments(chunk);
    let ghost lines = spec_fragments(chunk@);
    let mut out: Vec<EncodingProgress> = Vec::new();
    let mut idx: usize = 0;
    proof {
        assert(lines.skip(0) =~= lines);
    }
    while idx < frags.len()
        invariant
            frags.deep_view() == lines,
            0 <= idx <= frags@.len(),
            feed_all_state(*parser, lines.skip(idx as int)) == feed_all_state(
                *old(parser),
                lines,
            ),
            out@ + snapshots_of(*parser, lines.skip(idx as int)) =~= snapshots_of(
                *old(parser),
                lines,
            ),
        decreases frags@.len() - idx,
    {
        let line = &frags[idx];
        proof {
            assert(line@ == lines[idx as int]);
            assert(lines.skip(idx as int).drop_first() =~= lines.skip(idx + 1));
            assert(lines.skip(idx as int)[0] == lines[idx as int]);
        }
        let ghost pre = *parser;
        let r = parser.parse_line(line.as_str());
        if let Some(snapshot) = r {
            out.push(snapshot);
        }
        proof {
            assert(snapshots_of(pre, lines.skip(idx as int)) == match spec_step_output(
                pre,
                lines[idx as int],
            ) {
                Some(x) => seq![x] + snapshots_of(*parser, lines.skip(idx + 1)),
                None => snapshots_of(*parser, lines.skip(idx + 1)),
            });
        }
        idx += 1;
    }
    proof {
        assert(lines.skip(idx as int) =~= Seq::<Seq<char>>::empty());
        assert(out@ =~= snapshots_of(*old(parser), lines));
    }
    out
}

// ---------------------------------------------------------------------------
// Probe duration text
// ---------------------------------------------------------------------------

/// Value of a duration probe's plain-text output: a single decimal number
/// of seconds, surrounded by optional whitespace, in hundredths of a
/// second; `None` when the text is not such a number.
pub open spec fn spec_parse_probe_duration(s: Seq<char>) -> Option<u64> {
    let a = skip_spaces(s, 0);
    let b = dd_run_end(s, a);
    if decimal_token_valid(s, a, b) && skip_spaces(s, b) == s.len() && decimal_token_centis(
        s,
        a,
        b,
    ) <= u64::MAX {
        Some(decimal_token_centis(s, a, b) as u64)
    } else {
        None
    }
}

/// Parses the duration probe's plain-text output — one decimal number of
/// seconds — into hundredths of a second.
pub fn parse_probe_duration(s: &str) -> (r: Option<u64>)
    ensures
        r == spec_parse_probe_duration(s@),
{
    let s_len = s.unicode_len();
    let a = crate::progress::skip_spaces_exec(s, s_len, 0);
    let v = decimal_token_eval(s, s_len, a);
    match v {
        None => None,
        Some(value) => {
            let b = crate::progress::dd_run_end_exec(s, s_len, a);
            let t = crate::progress::skip_spaces_exec(s, s_len, b);
            if t == s_len {
                Some(value)
            } else {
                None
            }
        },
    }
}

// ---------------------------------------------------------------------------
// Human-readable formatting
// ---------------------------------------------------------------------------

/// Bytes in a kibibyte.
pub const KB: u64 = 1024;

/// Bytes in a mebibyte.
pub const MB: u64 = KB * 1024;

/// Bytes in a gibibyte.
pub const GB: u64 = MB * 1024;

/// `v / unit` rendered with two decimals (rounded half up), as `1.50`.
pub open spec fn spec_centi_of_unit(v: int, unit: int) -> Seq<char> {
    let c = (v * 100 + unit / 2) / unit;
    dec_chars(c / 100) + "."@ + two_dec_chars(c % 100)
}

/// Human-readable rendering of a byte count: two-decimal gibibytes,
/// mebibytes or kibibytes for counts at least one unit, bare bytes below a
/// kibibyte.
pub open spec fn spec_format_file_size(bytes: int) -> Seq<char> {
    if bytes >= GB {
        spec_centi_of_unit(bytes, GB as int) + " GB"@
    } else if bytes >= MB {
        spec_centi_of_unit(bytes, MB as int) + " MB"@
    } else if bytes >= KB {
        spec_centi_of_unit(bytes, KB as int) + " KB"@
    } else {
        dec_chars(bytes) + " B"@
    }
}

fn centi_of_unit(v: u64, unit: u64) -> (r: String)
    requires
        unit >= 2,
    ensures
        r@ == spec_centi_of_unit(v as int, unit as int),
{
    let c_wide = ((v as u128) * 100 + (unit as u128) / 2) / (unit as u128);
    proof {
        let vv = v as int;
        let uu = unit as int;
        assert((vv * 100 + uu / 2) / uu <= vv * 100) by (nonlinear_arith)
            requires
                uu >= 2,
                vv >= 0,
        ;
        assert((vv * 100 + uu / 2) / uu >= 0) by (nonlinear_arith)
            requires
                uu >= 2,
                vv >= 0,
        ;
        assert(c_wide <= vv * 100);
        assert(c_wide / 100 <= vv) by (nonlinear_arith)
            requires
                c_wide <= vv * 100,
                vv >= 0,
        ;
    }
    let whole = c_wide / 100;
    let frac = c_wide % 100;
    assert(whole <= u64::MAX as u128);
    let mut out = u64_to_string(whole as u64);
    out.append(".");
    let f = u64_to_two_digit_string((frac as u64));
    out.append(f.as_str());
    out
}

/// Formats a byte count as a human-readable string.
pub fn format_file_size(bytes: u64) -> (r: String)
    ensures
        r@ == spec_format_file_size(bytes as int),
{
    if bytes >= GB {
        let mut out = centi_of_unit(bytes, GB);
        out.append(" GB");
        out
    } else if bytes >= MB {
        let mut out = centi_of_unit(bytes, MB);
        out.append(" MB");
        out
    } else if bytes >= KB {
        let mut out = centi_of_unit(bytes, KB);
        out.append(" KB");
        out
    } else {
        let mut out = u64_to_string(bytes);
        out.append(" B");
        out
    }
}

/// Human-readable rendering of a duration in whole seconds, as
/// `1h 2m 3s`, `4m 5s` or `6s`.
pub open spec fn spec_format_duration(total_secs: int) -> Seq<char> {
    let hours = total_secs / 3600;
    let minutes = (total_secs % 3600) / 60;
    let seconds = total_secs % 60;
    if hours > 0 {
        dec_chars(hours) + "h "@ + dec_chars(minutes) + "m "@ + dec_chars(seconds) + "s"@
    } else if minutes > 0 {
        dec_chars(minutes) + "m "@ + dec_chars(seconds) + "s"@
    } else {
        dec_chars(seconds) + "s"@
    }
}

/// Formats a duration in whole seconds as a human-readable string.
pub fn format_duration(total_secs: u64) -> (r: String)
    ensures
        r@ == spec_format_duration(total_secs as int),
{
    let hours = total_secs / 3600;
    let minutes = (total_secs % 3600) / 60;
    let seconds = total_secs % 60;
    if hours > 0 {
        let mut out = u64_to_string(hours);
        out.append("h ");
        let m = u64_to_string(minutes);
        out.append(m.as_str());
        out.append("m ");
        let s = u64_to_string(seconds);
        out.append(s.as_str());
        out.append("s");
        out
    } else if minutes > 0 {
        let mut out = u64_to_string(minutes);
        out.append("m ");
        let s = u64_to_string(seconds);
        out.append(s.as_str());
        out.append("s");
        out
    } else {
        let mut out = u64_to_string(seconds);
        out.append("s");
        out
    }
}

} // verus!
