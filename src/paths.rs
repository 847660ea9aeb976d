//! Where the helper programs live, relative to the program's root directory.
use vstd::prelude::*;

verus! {

/// Paths of the helper programs.
#[derive(Debug, Clone)]
pub struct BinApps {
    pub yt_dlp: String,
    pub ffmpeg: String,
}

/// The downloader's path under `root`.
pub open spec fn yt_dlp_path(root: Seq<char>) -> Seq<char> {
    root + "/bin/yt-dlp_x86.exe"@
}

/// The encoder's path under `root`.
pub open spec fn ffmpeg_path(root: Seq<char>) -> Seq<char> {
    root + "/bin/ffmpeg/ffmpeg.exe"@
}

/// The helper programs' paths under the root directory `root`.
pub fn get_bin_app_paths(root: &str) -> (r: BinApps)
    ensures
        r.yt_dlp@ == yt_dlp_path(root@),
        r.ffmpeg@ == ffmpeg_path(root@),
{
    let mut yt_dlp = String::from_str(root);
    yt_dlp.append("/bin/yt-dlp_x86.exe");
    let mut ffmpeg = String::from_str(root);
    ffmpeg.append("/bin/ffmpeg/ffmpeg.exe");
    BinApps { yt_dlp, ffmpeg }
}

} // verus!
