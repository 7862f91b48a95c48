//! The fixed rendition ladder and the encoder and prober command lines that
//! realise it.
use vstd::prelude::*;
use vstd::string::*;
use crate::layout::{master_name, master_playlist_name, texts, TIER_COUNT};
use crate::text::{decimal, decimal_string};

verus! {

/// One tier of the ladder: target frame box and bitrates in kbit/s.
#[derive(Clone, Copy, Debug, PartialEq, Eq, Structural)]
pub struct Rendition {
    pub width: u32,
    pub height: u32,
    pub video_kbps: u32,
    pub maxrate_kbps: u32,
    pub bufsize_kbps: u32,
    pub audio_kbps: u32,
}

/// Frame rate assumed when spacing keyframes.
pub const FRAME_RATE: u64 = 30;

/// Seek offset, in seconds, of the thumbnail frame.
pub const THUMB_OFFSET_SECS: u64 = 3;

/// The ladder, highest tier first. Tier `i` is written to `out_<i>`.
pub open spec fn ladder() -> Seq<Rendition> {
    seq![
        Rendition { width: 1920, height: 1080, video_kbps: 6000, maxrate_kbps: 6420, bufsize_kbps: 9000, audio_kbps: 192 },
        Rendition { width: 1280, height: 720, video_kbps: 3000, maxrate_kbps: 3210, bufsize_kbps: 4500, audio_kbps: 160 },
        Rendition { width: 854, height: 480, video_kbps: 1500, maxrate_kbps: 1605, bufsize_kbps: 2250, audio_kbps: 128 },
    ]
}

/// Keyframe interval in frames: one segment's worth, so every segment starts
/// on a keyframe.
pub open spec fn gop_frames(seg_secs: nat) -> nat {
    seg_secs * FRAME_RATE as nat
}

pub open spec fn kbps(n: u32) -> Seq<char> {
    decimal(n as nat) + "k"@
}

/// `[v1][v2]...[vk]`: the labels of the split video paths.
pub open spec fn split_labels(k: nat) -> Seq<char>
    decreases k,
{
    if k == 0 {
        Seq::empty()
    } else {
        split_labels((k - 1) as nat) + "[v"@ + decimal(k) + "]"@
    }
}

/// The scaling filter of tier `i`.
pub open spec fn scale_filter(i: nat, r: Rendition) -> Seq<char> {
    "[v"@ + decimal(i + 1) + "]scale=w="@ + decimal(r.width as nat) + ":h="@ + decimal(r.height as nat)
        + ":force_original_aspect_ratio=decrease:eval=frame:force_divisible_by=2[v"@ + decimal(i + 1) + "out]"@
}

/// The scaling filters of the first `k` tiers, each after `"; "`.
pub open spec fn scale_chain(k: nat) -> Seq<char>
    decreases k,
{
    if k == 0 {
        Seq::empty()
    } else {
        scale_chain((k - 1) as nat) + "; "@ + scale_filter((k - 1) as nat, ladder()[k - 1])
    }
}

/// The filter graph: split the video into one path per tier, then scale each.
pub open spec fn filter_graph() -> Seq<char> {
    "[0:v]split="@ + decimal(TIER_COUNT as nat) + split_labels(TIER_COUNT as nat) + scale_chain(TIER_COUNT as nat)
}

/// The encoder arguments of tier `i`.
pub open spec fn tier_args(i: nat, r: Rendition, gop: nat) -> Seq<Seq<char>> {
    seq![
        "-map"@, "[v"@ + decimal(i + 1) + "out]"@, "-map"@, "0:a:0?"@,
        "-c:v:"@ + decimal(i), "libx264"@,
        "-b:v:"@ + decimal(i), kbps(r.video_kbps),
        "-maxrate:v:"@ + decimal(i), kbps(r.maxrate_kbps),
        "-bufsize:v:"@ + decimal(i), kbps(r.bufsize_kbps),
        "-g"@, decimal(gop), "-keyint_min"@, decimal(gop), "-sc_threshold"@, "0"@,
        "-preset"@, "veryfast"@,
        "-c:a:"@ + decimal(i), "aac"@, "-b:a:"@ + decimal(i), kbps(r.audio_kbps), "-ac"@, "2"@,
    ]
}

/// The arguments of the first `k` tiers, in order.
pub open spec fn tiers_args(k: nat, gop: nat) -> Seq<Seq<char>>
    decreases k,
{
    if k == 0 {
        Seq::empty()
    } else {
        tiers_args((k - 1) as nat, gop) + tier_args((k - 1) as nat, ladder()[k - 1], gop)
    }
}

/// `v:0,a:0 v:1,a:1 ...` for the first `k` tiers.
pub open spec fn stream_map(k: nat) -> Seq<char>
    decreases k,
{
    if k == 0 {
        Seq::empty()
    } else {
        stream_map((k - 1) as nat) + (if k > 1 { " "@ } else { Seq::empty() }) + "v:"@ + decimal(
            (k - 1) as nat,
        ) + ",a:"@ + decimal((k - 1) as nat)
    }
}

/// The whole encoder invocation, run inside the output directory.
pub open spec fn encode_command(input: Seq<char>, seg_secs: nat) -> Seq<Seq<char>> {
    seq!["-y"@, "-i"@, input, "-filter_complex"@, filter_graph()]
        + tiers_args(TIER_COUNT as nat, gop_frames(seg_secs))
        + seq![
            "-f"@, "hls"@, "-hls_time"@, decimal(seg_secs),
            "-hls_playlist_type"@, "vod"@, "-hls_flags"@, "independent_segments"@,
            "-hls_segment_filename"@, "out_%v/seg_%03d.ts"@,
            "-master_pl_name"@, master_name(),
            "-var_stream_map"@, stream_map(TIER_COUNT as nat),
            "out_%v/prog.m3u8"@,
        ]
}

/// The thumbnail invocation: one frame at the fixed offset.
pub open spec fn thumbnail_command(input: Seq<char>, out: Seq<char>) -> Seq<Seq<char>> {
    seq!["-y"@, "-ss"@, decimal(THUMB_OFFSET_SECS as nat), "-i"@, input, "-frames:v"@, "1"@, out]
}

/// The prober invocation: the container duration in seconds, bare.
pub open spec fn probe_command(input: Seq<char>) -> Seq<Seq<char>> {
    seq![
        "-v"@, "error"@, "-show_entries"@, "format=duration"@,
        "-of"@, "default=noprint_wrappers=1:nokey=1"@, input,
    ]
}

/// The rendition ladder.
pub fn rendition_ladder() -> (r: Vec<Rendition>)
    ensures
        r@ == ladder(),
{
    let r = vec![
        Rendition { width: 1920, height: 1080, video_kbps: 6000, maxrate_kbps: 6420, bufsize_kbps: 9000, audio_kbps: 192 },
        Rendition { width: 1280, height: 720, video_kbps: 3000, maxrate_kbps: 3210, bufsize_kbps: 4500, audio_kbps: 160 },
        Rendition { width: 854, height: 480, video_kbps: 1500, maxrate_kbps: 1605, bufsize_kbps: 2250, audio_kbps: 128 },
    ];
    assert(r@ =~= ladder());
    r
}

fn push_arg(v: &mut Vec<String>, s: String)
    ensures
        texts(final(v)@) == texts(old(v)@).push(s@),
{
    v.push(s);
    assert(texts(final(v)@) =~= texts(old(v)@).push(s@));
}

fn push_str(v: &mut Vec<String>, s: &str)
    ensures
        texts(final(v)@) == texts(old(v)@).push(s@),
{
    push_arg(v, String::from_str(s));
}

fn kbps_string(n: u32) -> (r: String)
    ensures
        r@ == kbps(n),
{
    decimal_string(n as u64).concat("k")
}

fn indexed(head: &str, i: u64) -> (r: String)
    ensures
        r@ == head@ + decimal(i as nat),
{
    let d = decimal_string(i);
    String::from_str(head).concat(d.as_str())
}

fn scale_filter_string(i: u64, r: Rendition) -> (s: String)
    requires
        i < TIER_COUNT,
    ensures
        s@ == scale_filter(i as nat, r),
{
    let label = decimal_string(i + 1);
    let w = decimal_string(r.width as u64);
    let h = decimal_string(r.height as u64);
    String::from_str("[v").concat(label.as_str()).concat("]scale=w=").concat(w.as_str()).concat(":h=").concat(
        h.as_str(),
    ).concat(":force_original_aspect_ratio=decrease:eval=frame:force_divisible_by=2[v").concat(
        label.as_str(),
    ).concat("out]")
}

/// The filter graph of the ladder.
pub fn filter_graph_text() -> (r: String)
    ensures
        r@ == filter_graph(),
{
    let tiers = rendition_ladder();
    let count = decimal_string(TIER_COUNT);
    let mut labels = String::new();
    let mut chain = String::new();
    let mut i: u64 = 0;
    while i < TIER_COUNT
        invariant
            i <= TIER_COUNT,
            tiers@ == ladder(),
            labels@ == split_labels(i as nat),
            chain@ == scale_chain(i as nat),
        decreases TIER_COUNT - i,
    {
        let n = decimal_string(i + 1);
        labels = labels.concat("[v").concat(n.as_str()).concat("]");
        let f = scale_filter_string(i, tiers[i as usize]);
        chain = chain.concat("; ").concat(f.as_str());
        i = i + 1;
    }
    String::from_str("[0:v]split=").concat(count.as_str()).concat(labels.as_str()).concat(chain.as_str())
}

fn push_tier_args(v: &mut Vec<String>, i: u64, r: Rendition, gop: u64)
    requires
        i < TIER_COUNT,
    ensures
        texts(final(v)@) == texts(old(v)@) + tier_args(i as nat, r, gop as nat),
{
    let ghost start = texts(old(v)@);
    push_str(v, "-map");
    let label = decimal_string(i + 1);
    push_arg(v, String::from_str("[v").concat(label.as_str()).concat("out]"));
    push_str(v, "-map");
    push_str(v, "0:a:0?");
    push_arg(v, indexed("-c:v:", i));
    push_str(v, "libx264");
    push_arg(v, indexed("-b:v:", i));
    push_arg(v, kbps_string(r.video_kbps));
    push_arg(v, indexed("-maxrate:v:", i));
    push_arg(v, kbps_string(r.maxrate_kbps));
    push_arg(v, indexed("-bufsize:v:", i));
    push_arg(v, kbps_string(r.bufsize_kbps));
    push_str(v, "-g");
    push_arg(v, decimal_string(gop));
    push_str(v, "-keyint_min");
    push_arg(v, decimal_string(gop));
    push_str(v, "-sc_threshold");
    push_str(v, "0");
    push_str(v, "-preset");
    push_str(v, "veryfast");
    push_arg(v, indexed("-c:a:", i));
    push_str(v, "aac");
    push_arg(v, indexed("-b:a:", i));
    push_arg(v, kbps_string(r.audio_kbps));
    push_str(v, "-ac");
    push_str(v, "2");
    assert(texts(v@) =~= start + tier_args(i as nat, r, gop as nat));
}

/// `v:0,a:0 v:1,a:1 v:2,a:2`: which audio goes with which video stream.
pub fn stream_map_text() -> (r: String)
    ensures
        r@ == stream_map(TIER_COUNT as nat),
{
    let mut m = String::new();
    let mut i: u64 = 0;
    while i < TIER_COUNT
        invariant
            i <= TIER_COUNT,
            m@ == stream_map(i as nat),
        decreases TIER_COUNT - i,
    {
        if i > 0 {
            m = m.concat(" ");
        }
        let n = decimal_string(i);
        m = m.concat("v:").concat(n.as_str()).concat(",a:").concat(n.as_str());
        assert(m@ =~= stream_map((i + 1) as nat));
        i = i + 1;
    }
    m
}

/// Arguments of the encoder run that writes the whole ladder, as HLS with
/// segments of `seg_secs` seconds and a keyframe at the start of each.
pub fn encode_args(input: &str, seg_secs: u32) -> (r: Vec<String>)
    ensures
        texts(r@) == encode_command(input@, seg_secs as nat),
{
    let tiers = rendition_ladder();
    let gop: u64 = seg_secs as u64 * FRAME_RATE;
    let mut v: Vec<String> = Vec::new();
    push_str(&mut v, "-y");
    push_str(&mut v, "-i");
    push_str(&mut v, input);
    push_str(&mut v, "-filter_complex");
    push_arg(&mut v, filter_graph_text());
    let ghost head = texts(v@);
    assert(head =~= seq!["-y"@, "-i"@, input@, "-filter_complex"@, filter_graph()]);
    let mut i: u64 = 0;
    while i < TIER_COUNT
        invariant
            i <= TIER_COUNT,
            tiers@ == ladder(),
            gop == gop_frames(seg_secs as nat),
            texts(v@) == head + tiers_args(i as nat, gop as nat),
        decreases TIER_COUNT - i,
    {
        push_tier_args(&mut v, i, tiers[i as usize], gop);
        assert(texts(v@) =~= head + tiers_args((i + 1) as nat, gop as nat));
        i = i + 1;
    }
    let ghost mid = texts(v@);
    push_str(&mut v, "-f");
    push_str(&mut v, "hls");
    push_str(&mut v, "-hls_time");
    push_arg(&mut v, decimal_string(seg_secs as u64));
    push_str(&mut v, "-hls_playlist_type");
    push_str(&mut v, "vod");
    push_str(&mut v, "-hls_flags");
    push_str(&mut v, "independent_segments");
    push_str(&mut v, "-hls_segment_filename");
    push_str(&mut v, "out_%v/seg_%03d.ts");
    push_str(&mut v, "-master_pl_name");
    push_str(&mut v, master_playlist_name());
    push_str(&mut v, "-var_stream_map");
    push_arg(&mut v, stream_map_text());
    push_str(&mut v, "out_%v/prog.m3u8");
    assert(texts(v@) =~= encode_command(input@, seg_secs as nat));
    v
}

/// Arguments of the run that writes one frame of `input` to `out`.
pub fn thumbnail_args(input: &str, out: &str) -> (r: Vec<String>)
    ensures
        texts(r@) == thumbnail_command(input@, out@),
{
    let mut v: Vec<String> = Vec::new();
    push_str(&mut v, "-y");
    push_str(&mut v, "-ss");
    push_arg(&mut v, decimal_string(THUMB_OFFSET_SECS));
    push_str(&mut v, "-i");
    push_str(&mut v, input);
    push_str(&mut v, "-frames:v");
    push_str(&mut v, "1");
    push_str(&mut v, out);
    assert(texts(v@) =~= thumbnail_command(input@, out@));
    v
}

/// Arguments of the prober run that prints the duration of `input`.
pub fn probe_args(input: &str) -> (r: Vec<String>)
    ensures
        texts(r@) == probe_command(input@),
{
    let mut v: Vec<String> = Vec::new();
    push_str(&mut v, "-v");
    push_str(&mut v, "error");
    push_str(&mut v, "-show_entries");
    push_str(&mut v, "format=duration");
    push_str(&mut v, "-of");
    push_str(&mut v, "default=noprint_wrappers=1:nokey=1");
    push_str(&mut v, input);
    assert(texts(v@) =~= probe_command(input@));
    v
}

} // verus!
