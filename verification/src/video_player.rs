//! The external video player: which program plays a playlist, and with which
//! arguments. Finding the program and starting it are left to the caller.

use vstd::prelude::*;

use crate::text::{chars_of, string_views};

verus! {

/// The environment variable that names the player program.
pub const MPV_ENV: &'static str = "AT_TUI_MPV";

/// The options the player is started with: no user configuration, output to the
/// terminal's graphics protocol through shared memory on the alternate screen, no
/// resume, no downloader, warnings only.
pub open spec fn player_options() -> Seq<Seq<char>> {
    seq![
        "--no-config"@,
        "--vo=kitty"@,
        "--vo-kitty-use-shm=yes"@,
        "--vo-kitty-alt-screen=yes"@,
        "--keep-open=no"@,
        "--save-position-on-quit=no"@,
        "--ytdl=no"@,
        "--msg-level=all=warn"@,
    ]
}

/// The player's arguments: its options, then `--` so that the playlist URL is read
/// as data and never as an option, then the URL.
pub open spec fn player_arguments(playlist_url: Seq<char>) -> Seq<Seq<char>> {
    player_options() + seq!["--"@, playlist_url]
}

/// A player program found on this machine.
#[derive(Debug, Clone, PartialEq, Eq)]
pub struct MpvPlayer {
    executable: String,
}

impl MpvPlayer {
    pub closed spec fn spec_executable(&self) -> Seq<char> {
        self.executable@
    }

    /// The player at the path `executable`.
    pub fn new(executable: String) -> (r: MpvPlayer)
        ensures
            r.spec_executable() == executable@,
    {
        MpvPlayer { executable }
    }

    /// The path of the player program.
    pub fn executable(&self) -> (r: &str)
        ensures
            r@ == self.spec_executable(),
    {
        self.executable.as_str()
    }

    /// The arguments that play `playlist_url`.
    pub fn arguments(&self, playlist_url: &str) -> (r: Vec<String>)
        ensures
            r@.map_values(|a: String| a@) == player_arguments(playlist_url@),
    {
        command_arguments(playlist_url)
    }
}

/// The arguments that play `playlist_url` with the player.
pub fn command_arguments(playlist_url: &str) -> (r: Vec<String>)
    ensures
        r@.map_values(|a: String| a@) == player_arguments(playlist_url@),
{
    let mut args: Vec<String> = Vec::new();
    args.push("--no-config".to_owned());
    args.push("--vo=kitty".to_owned());
    args.push("--vo-kitty-use-shm=yes".to_owned());
    args.push("--vo-kitty-alt-screen=yes".to_owned());
    args.push("--keep-open=no".to_owned());
    args.push("--save-position-on-quit=no".to_owned());
    args.push("--ytdl=no".to_owned());
    args.push("--msg-level=all=warn".to_owned());
    args.push("--".to_owned());
    args.push(playlist_url.to_owned());
    assert(args@.map_values(|a: String| a@) =~= player_arguments(playlist_url@));
    args
}


/// How many frames of a video are decoded for the preview.
pub const MAX_VIDEO_FRAMES: usize = 120;

/// The decoder's arguments: quiet, overwriting, reading `playlist_url`, eight frames a
/// second scaled to at most 640 pixels wide, at most 120 frames, written to the
/// numbered file pattern `output`.
pub open spec fn decode_arguments(playlist_url: Seq<char>, output: Seq<char>) -> Seq<Seq<char>> {
    seq![
        "-hide_banner"@,
        "-loglevel"@,
        "error"@,
        "-y"@,
        "-i"@,
        playlist_url,
        "-vf"@,
        "fps=8,scale=640:-2:force_original_aspect_ratio=decrease"@,
        "-vframes"@,
        "120"@,
        output,
    ]
}

/// The arguments of the frame decoder for `playlist_url`, writing to `output`.
pub fn frame_decode_arguments(playlist_url: &str, output: &str) -> (r: Vec<String>)
    ensures
        r@.map_values(|a: String| a@) == decode_arguments(playlist_url@, output@),
{
    let mut args: Vec<String> = Vec::new();
    args.push("-hide_banner".to_owned());
    args.push("-loglevel".to_owned());
    args.push("error".to_owned());
    args.push("-y".to_owned());
    args.push("-i".to_owned());
    args.push(playlist_url.to_owned());
    args.push("-vf".to_owned());
    args.push("fps=8,scale=640:-2:force_original_aspect_ratio=decrease".to_owned());
    args.push("-vframes".to_owned());
    args.push("120".to_owned());
    args.push(output.to_owned());
    assert(args@.map_values(|a: String| a@) =~= decode_arguments(playlist_url@, output@));
    args
}

// ---------------------------------------------------------------------------
// The decoded frames

/// A file name whose extension is `jpg`: it ends in `.jpg` after at least one other
/// character (a name that starts with its only dot has no extension).
pub open spec fn is_jpg_name(name: Seq<char>) -> bool {
    name.len() >= 5 && name.skip(name.len() - 4) == ".jpg"@
}

/// `a` comes no later than `b` in the order of their characters.
pub open spec fn text_le(a: Seq<char>, b: Seq<char>) -> bool
    decreases a.len(),
{
    if a.len() == 0 {
        true
    } else if b.len() == 0 {
        false
    } else if a[0] != b[0] {
        (a[0] as u32) < (b[0] as u32)
    } else {
        text_le(a.drop_first(), b.drop_first())
    }
}

/// The names of `names` that are frames, in their order.
pub open spec fn jpg_names(names: Seq<Seq<char>>) -> Seq<Seq<char>>
    decreases names.len(),
{
    if names.len() == 0 {
        Seq::empty()
    } else if is_jpg_name(names.last()) {
        jpg_names(names.drop_last()).push(names.last())
    } else {
        jpg_names(names.drop_last())
    }
}

/// `n` put into `sorted` after every name that comes no later.
pub open spec fn insert_name(sorted: Seq<Seq<char>>, n: Seq<char>) -> Seq<Seq<char>>
    decreases sorted.len(),
{
    if sorted.len() == 0 || text_le(sorted.last(), n) {
        sorted.push(n)
    } else {
        insert_name(sorted.drop_last(), n).push(sorted.last())
    }
}

/// The names in the order of their characters, equal names in their given order.
pub open spec fn sort_names(names: Seq<Seq<char>>) -> Seq<Seq<char>>
    decreases names.len(),
{
    if names.len() == 0 {
        Seq::empty()
    } else {
        insert_name(sort_names(names.drop_last()), names.last())
    }
}

fn is_jpg(name: &str) -> (r: bool)
    ensures
        r == is_jpg_name(name@),
{
    let v = chars_of(name);
    let n = v.len();
    if n < 5 {
        return false;
    }
    let r = v[n - 4] == '.' && v[n - 3] == 'j' && v[n - 2] == 'p' && v[n - 1] == 'g';
    proof {
        reveal_strlit(".jpg");
        if r {
            assert(v@.skip(n - 4) =~= ".jpg"@);
        } else {
            if v@.skip(n - 4) == ".jpg"@ {
                assert(v@.skip(n - 4)[0] == v@[n - 4]);
                assert(v@.skip(n - 4)[1] == v@[n - 3]);
                assert(v@.skip(n - 4)[2] == v@[n - 2]);
                assert(v@.skip(n - 4)[3] == v@[n - 1]);
            }
        }
    }
    r
}

fn name_le(a: &str, b: &str) -> (r: bool)
    ensures
        r == text_le(a@, b@),
{
    let x = chars_of(a);
    let y = chars_of(b);
    let mut i: usize = 0;
    assert(x@.skip(0) =~= x@ && y@.skip(0) =~= y@);
    while i < x.len() && i < y.len()
        invariant
            i <= x@.len(),
            i <= y@.len(),
            text_le(a@, b@) == text_le(x@.skip(i as int), y@.skip(i as int)),
            x@ == a@,
            y@ == b@,
        decreases x@.len() - i,
    {
        if x[i] != y[i] {
            let r = (x[i] as u32) < (y[i] as u32);
            assert(x@.skip(i as int)[0] == x@[i as int] && y@.skip(i as int)[0] == y@[i as int]);
            return r;
        }
        assert(x@.skip(i as int).drop_first() =~= x@.skip(i + 1));
        assert(y@.skip(i as int).drop_first() =~= y@.skip(i + 1));
        i += 1;
    }
    i == x.len()
}

fn insert_sorted(sorted: &mut Vec<String>, n: String)
    ensures
        string_views(final(sorted)@) == insert_name(string_views(old(sorted)@), n@),
    decreases old(sorted)@.len(),
{
    let len = sorted.len();
    if len == 0 || name_le(sorted[len - 1].as_str(), n.as_str()) {
        let ghost before = sorted@;
        sorted.push(n);
        assert(string_views(sorted@) =~= string_views(before).push(n@));
    } else {
        let ghost before = sorted@;
        let last = sorted.pop().unwrap();
        assert(string_views(sorted@) =~= string_views(before).drop_last());
        insert_sorted(sorted, n);
        let ghost mid = sorted@;
        sorted.push(last);
        assert(string_views(sorted@) =~= string_views(mid).push(last@));
    }
}

/// The frames the decoder wrote among the names found in its directory: the `jpg`
/// files, in the order of their names.
pub fn frame_files(names: &Vec<String>) -> (r: Vec<String>)
    ensures
        string_views(r@) == sort_names(jpg_names(string_views(names@))),
{
    let mut sorted: Vec<String> = Vec::new();
    let ghost all = string_views(names@);
    let mut i: usize = 0;
    while i < names.len()
        invariant
            all == string_views(names@),
            i <= names@.len(),
            string_views(sorted@) == sort_names(jpg_names(all.take(i as int))),
        decreases names@.len() - i,
    {
        let ghost prefix = all.take(i + 1);
        assert(prefix.drop_last() =~= all.take(i as int));
        assert(prefix.last() == names@[i as int]@);
        let ghost before = jpg_names(all.take(i as int));
        if is_jpg(names[i].as_str()) {
            let name = names[i].clone();
            assert(jpg_names(prefix) == before.push(name@));
            assert(before.push(name@).drop_last() =~= before);
            insert_sorted(&mut sorted, name);
        } else {
            assert(jpg_names(prefix) == before);
        }
        i += 1;
    }
    assert(all.take(names@.len() as int) =~= all);
    sorted
}

} // verus!
