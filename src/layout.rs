//! Object keys and local file names of a job, and the check of the tree that
//! the encoder leaves behind.
use vstd::prelude::*;
use vstd::string::*;
use crate::text::{contains_text, decimal, decimal_string, digit_char, same_text, with_forward_slashes, forward_slashes, occurs_in, trim_end_char, trim_end_matching, trim_start_char, trim_start_matching};

verus! {

/// Number of tiers of the rendition ladder; variant directories are numbered
/// from zero below this.
pub const TIER_COUNT: u64 = 3;

pub open spec fn master_name() -> Seq<char> {
    "master.m3u8"@
}

pub open spec fn thumb_name() -> Seq<char> {
    "thumb.jpg"@
}

pub open spec fn input_name() -> Seq<char> {
    "input.mp4"@
}

pub open spec fn output_dir_name() -> Seq<char> {
    "out"@
}

/// `{hls}/{video}/`: where every object of a video's output lives.
pub open spec fn output_prefix_of(hls: Seq<char>, video: Seq<char>) -> Seq<char> {
    hls + "/"@ + video + "/"@
}

/// Key of the master playlist, whose presence marks a finished job.
pub open spec fn marker_key_of(hls: Seq<char>, video: Seq<char>) -> Seq<char> {
    trim_end_char(output_prefix_of(hls, video), '/') + "/"@ + master_name()
}

/// Key of the thumbnail.
pub open spec fn thumb_key_of(hls: Seq<char>, video: Seq<char>) -> Seq<char> {
    output_prefix_of(hls, video) + thumb_name()
}

/// Key of the source object in the uploads bucket.
pub open spec fn source_key_of(raw: Seq<char>) -> Seq<char> {
    trim_start_char(raw, '/')
}

/// `out_<i>`: the directory of tier `i`.
pub open spec fn variant_dir_of(i: nat) -> Seq<char> {
    "out_"@ + decimal(i)
}

/// `out_<i>/prog.m3u8`: the variant playlist of tier `i`.
pub open spec fn variant_playlist_of(i: nat) -> Seq<char> {
    variant_dir_of(i) + "/prog.m3u8"@
}

/// A path names a variant playlist when its last component is `prog.m3u8`
/// inside some directory.
pub open spec fn names_variant_playlist(p: Seq<char>) -> bool {
    p.len() >= 10 && p.subrange(p.len() - 10, p.len() as int) == "/prog.m3u8"@
}

/// Whether the list of relative paths (with `/` or `\` as separator) holds
/// the path `p` written with `/`.
pub open spec fn lists(files: Seq<Seq<char>>, p: Seq<char>) -> bool {
    exists|j: int| 0 <= j < files.len() && #[trigger] forward_slashes(files[j]) == p
}

/// The variant playlists found in a tree, with `/` as separator.
pub open spec fn variant_playlists_in(files: Seq<Seq<char>>) -> Set<Seq<char>> {
    Set::new(|p: Seq<char>| lists(files, p) && names_variant_playlist(p))
}

/// A complete tree holds the master playlist and the playlist of each tier,
/// and no variant playlist besides those.
pub open spec fn tree_complete(files: Seq<Seq<char>>) -> bool {
    &&& lists(files, master_name())
    &&& forall|i: nat| i < TIER_COUNT ==> lists(files, #[trigger] variant_playlist_of(i))
    &&& forall|j: int| 0 <= j < files.len() && names_variant_playlist(#[trigger] forward_slashes(files[j]))
        ==> exists|i: nat| i < TIER_COUNT && forward_slashes(files[j]) == #[trigger] variant_playlist_of(i)
}

/// A master playlist that refers to the playlist of every tier.
pub open spec fn master_lists_all(text: Seq<char>) -> bool {
    forall|i: nat| i < TIER_COUNT ==> occurs_in(#[trigger] variant_playlist_of(i), text)
}

pub fn master_playlist_name() -> (r: &'static str)
    ensures
        r@ == master_name(),
{
    "master.m3u8"
}

pub fn thumb_file_name() -> (r: &'static str)
    ensures
        r@ == thumb_name(),
{
    "thumb.jpg"
}

pub fn input_file_name() -> (r: &'static str)
    ensures
        r@ == input_name(),
{
    "input.mp4"
}

pub fn output_dir() -> (r: &'static str)
    ensures
        r@ == output_dir_name(),
{
    "out"
}

/// `{hls}/{video}/`.
pub fn output_prefix(hls: &str, video: &str) -> (r: String)
    ensures
        r@ == output_prefix_of(hls@, video@),
{
    String::from_str(hls).concat("/").concat(video).concat("/")
}

/// Key of the master playlist of a video, the idempotency marker.
pub fn marker_key(hls: &str, video: &str) -> (r: String)
    ensures
        r@ == marker_key_of(hls@, video@),
{
    let prefix = output_prefix(hls, video);
    String::from_str(trim_end_matching(prefix.as_str(), '/')).concat("/").concat(master_playlist_name())
}

/// Key of the thumbnail of a video.
pub fn thumb_key(hls: &str, video: &str) -> (r: String)
    ensures
        r@ == thumb_key_of(hls@, video@),
{
    output_prefix(hls, video).concat(thumb_file_name())
}

/// Key of the source object: the given key without leading slashes.
pub fn source_key(raw: &str) -> (r: String)
    ensures
        r@ == source_key_of(raw@),
{
    String::from_str(trim_start_matching(raw, '/'))
}

/// `out_<i>`.
pub fn variant_dir(i: u64) -> (r: String)
    ensures
        r@ == variant_dir_of(i as nat),
{
    let d = decimal_string(i);
    String::from_str("out_").concat(d.as_str())
}

/// `out_<i>/prog.m3u8`.
pub fn variant_playlist(i: u64) -> (r: String)
    ensures
        r@ == variant_playlist_of(i as nat),
{
    variant_dir(i).concat("/prog.m3u8")
}


/// The characters of each string of a list.
pub open spec fn texts(v: Seq<String>) -> Seq<Seq<char>> {
    v.map_values(|s: String| s@)
}

fn is_variant_playlist_path(p: &str) -> (r: bool)
    ensures
        r == names_variant_playlist(p@),
{
    let n = p.unicode_len();
    if n < 10 {
        proof {
            reveal_strlit("/prog.m3u8");
        }
        return false;
    }
    same_text(p.substring_char(n - 10, n), "/prog.m3u8")
}

fn lists_path(files: &Vec<String>, p: &str) -> (r: bool)
    ensures
        r == lists(texts(files@), p@),
{
    let mut j: usize = 0;
    while j < files.len()
        invariant
            j <= files@.len(),
            forall|k: int| 0 <= k < j ==> forward_slashes(#[trigger] files@[k]@) != p@,
        decreases files@.len() - j,
    {
        let norm = with_forward_slashes(files[j].as_str());
        if same_text(norm.as_str(), p) {
            assert(texts(files@)[j as int] == files@[j as int]@);
            return true;
        }
        j = j + 1;
    }
    assert forall|k: int| 0 <= k < texts(files@).len() implies #[trigger] forward_slashes(texts(files@)[k]) != p@ by {
        assert(texts(files@)[k] == files@[k]@);
    }
    false
}

fn tier_of_playlist(p: &str) -> (r: bool)
    ensures
        r == exists|i: nat| i < TIER_COUNT && p@ == #[trigger] variant_playlist_of(i),
{
    let mut i: u64 = 0;
    while i < TIER_COUNT
        invariant
            i <= TIER_COUNT,
            forall|k: nat| k < i ==> p@ != #[trigger] variant_playlist_of(k),
        decreases TIER_COUNT - i,
    {
        let vp = variant_playlist(i);
        if same_text(p, vp.as_str()) {
            return true;
        }
        i = i + 1;
    }
    false
}

/// Whether the relative paths of the encoder's output directory form a
/// complete tree: the master playlist, the playlist of each tier, and no
/// other variant playlist.
pub fn output_tree_complete(files: &Vec<String>) -> (r: bool)
    ensures
        r == tree_complete(texts(files@)),
{
    let ghost fs = texts(files@);
    if !lists_path(files, master_playlist_name()) {
        return false;
    }
    let mut i: u64 = 0;
    while i < TIER_COUNT
        invariant
            i <= TIER_COUNT,
            fs == texts(files@),
            forall|k: nat| k < i ==> lists(fs, #[trigger] variant_playlist_of(k)),
        decreases TIER_COUNT - i,
    {
        let vp = variant_playlist(i);
        if !lists_path(files, vp.as_str()) {
            return false;
        }
        i = i + 1;
    }
    let mut j: usize = 0;
    while j < files.len()
        invariant
            j <= files@.len(),
            fs == texts(files@),
            forall|k: int| 0 <= k < j && names_variant_playlist(#[trigger] forward_slashes(fs[k]))
                ==> exists|t: nat| t < TIER_COUNT && forward_slashes(fs[k]) == #[trigger] variant_playlist_of(t),
        decreases files@.len() - j,
    {
        let norm = with_forward_slashes(files[j].as_str());
        assert(fs[j as int] == files@[j as int]@);
        if is_variant_playlist_path(norm.as_str()) && !tier_of_playlist(norm.as_str()) {
            return false;
        }
        j = j + 1;
    }
    true
}

/// Whether a master playlist's text refers to the playlist of every tier.
pub fn master_lists_variants(text: &str) -> (r: bool)
    ensures
        r == master_lists_all(text@),
{
    let mut i: u64 = 0;
    while i < TIER_COUNT
        invariant
            i <= TIER_COUNT,
            forall|k: nat| k < i ==> occurs_in(#[trigger] variant_playlist_of(k), text@),
        decreases TIER_COUNT - i,
    {
        let vp = variant_playlist(i);
        if !contains_text(text, vp.as_str()) {
            return false;
        }
        i = i + 1;
    }
    true
}

proof fn lemma_variant_playlist_shape(i: nat)
    requires
        i < 10,
    ensures
        variant_playlist_of(i) == "out_"@ + seq![digit_char(i)] + "/prog.m3u8"@,
        variant_playlist_of(i).len() == 15,
        variant_playlist_of(i)[4] == digit_char(i),
        names_variant_playlist(variant_playlist_of(i)),
{
    reveal_strlit("out_");
    reveal_strlit("/prog.m3u8");
    let v = variant_playlist_of(i);
    assert(v.subrange(v.len() - 10, v.len() as int) =~= "/prog.m3u8"@);
}

/// A complete output tree holds the master playlist and exactly three variant
/// playlists, `out_0/prog.m3u8`, `out_1/prog.m3u8` and `out_2/prog.m3u8`.
pub proof fn lemma_complete_tree_has_three_variants(files: Seq<Seq<char>>)
    requires
        tree_complete(files),
    ensures
        lists(files, master_name()),
        variant_playlists_in(files) == set![variant_playlist_of(0), variant_playlist_of(1), variant_playlist_of(2)],
        variant_playlists_in(files).len() == 3,
{
    lemma_variant_playlist_shape(0);
    lemma_variant_playlist_shape(1);
    lemma_variant_playlist_shape(2);
    let expected = set![variant_playlist_of(0), variant_playlist_of(1), variant_playlist_of(2)];
    assert forall|p: Seq<char>| variant_playlists_in(files).contains(p) <==> expected.contains(p) by {
        if variant_playlists_in(files).contains(p) {
            let j = choose|j: int| 0 <= j < files.len() && #[trigger] forward_slashes(files[j]) == p;
            let t = choose|t: nat| t < TIER_COUNT && forward_slashes(files[j]) == #[trigger] variant_playlist_of(t);
            assert(t == 0 || t == 1 || t == 2);
        }
        if expected.contains(p) {
            assert(lists(files, variant_playlist_of(0)));
            assert(lists(files, variant_playlist_of(1)));
            assert(lists(files, variant_playlist_of(2)));
        }
    }
    assert(variant_playlists_in(files) =~= expected);
    assert(variant_playlist_of(0)[4] != variant_playlist_of(1)[4]);
    assert(variant_playlist_of(0)[4] != variant_playlist_of(2)[4]);
    assert(variant_playlist_of(1)[4] != variant_playlist_of(2)[4]);
    assert(set![variant_playlist_of(0)].len() == 1);
    assert(set![variant_playlist_of(0), variant_playlist_of(1)].len() == 2);
}

} // verus!
