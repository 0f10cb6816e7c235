use vstd::prelude::*;
use std::collections::HashMap;
use std::path::{Path, PathBuf};
use crate::item::{copy_opt_string, QueueItemConfig};

verus! {

/// The user's download preferences that fill in what a request leaves open.
pub struct DownloadSettings {
    pub video_quality: String,
    pub video_format: String,
    pub audio_format: String,
    pub audio_quality: String,
    pub filename_template: String,
    pub organize_by_platform: bool,
    pub download_subtitles: bool,
    pub include_auto_subtitles: bool,
    /// How many fragments a download fetches at once.
    pub concurrent_fragments: u32,
    /// The port a torrent session listens on.
    pub torrent_listen_port: u16,
}

/// The formats and places a download runs with, once the settings have
/// filled in what the request left open.
pub struct ResolvedOptions {
    pub quality: String,
    pub video_format: String,
    pub audio_format: String,
    pub audio_quality: String,
    pub output_dir: String,
    pub filename_template: String,
    pub download_subtitles: bool,
    pub include_auto_subtitles: bool,
    pub download_mode: Option<String>,
    pub format_id: Option<String>,
    pub referer: Option<String>,
    pub extra_headers: Option<HashMap<String, String>>,
    pub page_url: Option<String>,
    pub user_agent: Option<String>,
    pub ytdlp_path: Option<PathBuf>,
    pub concurrent_fragments: u32,
    pub torrent_listen_port: Option<u16>,
}

/// Both header sets are absent, or both are present with the same entries.
pub open spec fn same_headers(
    a: Option<HashMap<String, String>>,
    b: Option<HashMap<String, String>>,
) -> bool {
    match (a, b) {
        (Some(x), Some(y)) => x@ == y@,
        (None, None) => true,
        _ => false,
    }
}

/// The request's own choice, or else the setting.
pub open spec fn chosen(own: Option<String>, setting: String) -> String {
    match own {
        Some(v) => v,
        None => setting,
    }
}

/// A character that separates path components on some target system.
pub open spec fn is_path_separator(c: char) -> bool {
    c == '/' || c == '\\'
}

/// An ordinary folder: not empty, not starting with a backslash (no Windows
/// device, verbatim or network prefix), and not ending in a separator or in
/// the `:` of a bare drive.
pub open spec fn plain_folder(base: Seq<char>) -> bool {
    &&& base.len() > 0
    &&& base[0] != '\\'
    &&& !is_path_separator(base.last())
    &&& base.last() != ':'
}

/// A plain relative name: not empty, with no separator and no `:`.
pub open spec fn plain_name(name: Seq<char>) -> bool {
    &&& name.len() > 0
    &&& forall|i: int| 0 <= i < name.len() ==> !is_path_separator(#[trigger] name[i]) && name[i] != ':'
}

/// `joined` is `base`, one separator of the target system, then `name`.
pub open spec fn joined_path(base: Seq<char>, name: Seq<char>, joined: Seq<char>) -> bool {
    exists|sep: char| is_path_separator(sep) && joined == base + seq![sep] + name
}

/// `Path::join`, then the joined path as text (both arguments are UTF-8, so
/// the text is exact). Joining a plain relative name to an ordinary folder
/// appends the target system's separator (`/`, or `\` on Windows) and the
/// name; which separator is left open, and other inputs are not described.
#[verifier::external_body]
fn join_dir(base: &str, child: &str) -> (r: String)
    ensures
        plain_folder(base@) && plain_name(child@) ==> joined_path(base@, child@, r@),
{
    Path::new(base).join(child).to_string_lossy().into_owned()
}

/// `<PathBuf as Clone>::clone`: a new path with the same contents.
#[verifier::external_body]
fn copy_path(p: &PathBuf) -> (r: PathBuf)
    ensures
        r == *p,
{
    p.clone()
}

/// A copy of an optional path.
fn copy_opt_path(p: &Option<PathBuf>) -> (r: Option<PathBuf>)
    ensures
        r == *p,
{
    match p {
        Some(x) => Some(copy_path(x)),
        None => None,
    }
}

/// A copy of an optional set of request headers.
fn copy_opt_headers(h: &Option<HashMap<String, String>>) -> (r: Option<HashMap<String, String>>)
    ensures
        same_headers(r, *h),
{
    match h {
        Some(x) => Some(x.clone()),
        None => None,
    }
}

/// The request's own choice, or else a copy of the setting.
fn choose_text(own: &Option<String>, setting: &String) -> (r: String)
    ensures
        r == chosen(*own, *setting),
{
    match own {
        Some(v) => v.clone(),
        None => setting.clone(),
    }
}

/// Fills in a download's formats from the settings where the request left
/// them open, places the file in a per-platform folder when the settings
/// organise downloads by platform, and passes on the request's own download
/// mode, format, referer, headers, page, user agent and yt-dlp path, with the
/// settings' fragment concurrency and torrent port.
pub fn resolve_options(config: &QueueItemConfig, settings: &DownloadSettings) -> (r: ResolvedOptions)
    ensures
        r.quality == chosen(config.quality, settings.video_quality),
        r.video_format == chosen(config.video_format, settings.video_format),
        r.audio_format == chosen(config.audio_format, settings.audio_format),
        r.audio_quality == chosen(config.audio_quality, settings.audio_quality),
        !settings.organize_by_platform ==> r.output_dir == config.output_dir,
        settings.organize_by_platform && plain_folder(config.output_dir@) && plain_name(
            config.platform@,
        ) ==> joined_path(config.output_dir@, config.platform@, r.output_dir@),
        r.filename_template == settings.filename_template,
        r.download_subtitles == match config.download_subtitles {
            Some(b) => b,
            None => settings.download_subtitles,
        },
        r.include_auto_subtitles == settings.include_auto_subtitles,
        r.download_mode == config.download_mode,
        r.format_id == config.format_id,
        r.referer == config.referer,
        same_headers(r.extra_headers, config.extra_headers),
        r.page_url == config.page_url,
        r.user_agent == config.user_agent,
        r.ytdlp_path == config.ytdlp_path,
        r.concurrent_fragments == settings.concurrent_fragments,
        r.torrent_listen_port == Some(settings.torrent_listen_port),
{
    let output_dir = if settings.organize_by_platform {
        join_dir(config.output_dir.as_str(), config.platform.as_str())
    } else {
        config.output_dir.clone()
    };
    ResolvedOptions {
        quality: choose_text(&config.quality, &settings.video_quality),
        video_format: choose_text(&config.video_format, &settings.video_format),
        audio_format: choose_text(&config.audio_format, &settings.audio_format),
        audio_quality: choose_text(&config.audio_quality, &settings.audio_quality),
        output_dir,
        filename_template: settings.filename_template.clone(),
        download_subtitles: match config.download_subtitles {
            Some(b) => b,
            None => settings.download_subtitles,
        },
        include_auto_subtitles: settings.include_auto_subtitles,
        download_mode: copy_opt_string(&config.download_mode),
        format_id: copy_opt_string(&config.format_id),
        referer: copy_opt_string(&config.referer),
        extra_headers: copy_opt_headers(&config.extra_headers),
        page_url: copy_opt_string(&config.page_url),
        user_agent: copy_opt_string(&config.user_agent),
        ytdlp_path: copy_opt_path(&config.ytdlp_path),
        concurrent_fragments: settings.concurrent_fragments,
        torrent_listen_port: Some(settings.torrent_listen_port),
    }
}

} // verus!
