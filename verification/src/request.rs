use vstd::prelude::*;
use std::collections::HashMap;
use std::path::PathBuf;
use crate::item::QueueItemConfig;
use crate::media::MediaInfo;

verus! {

/// Builder for adding items to the download queue without many positional parameters.
pub struct EnqueueRequest {
    pub config: QueueItemConfig,
    pub media_info: Option<MediaInfo>,
    pub total_bytes: Option<u64>,
    pub file_count: Option<u32>,
}

/// The configuration of a new request: the four given texts, every option unset.
pub open spec fn base_config(
    url: String,
    platform: String,
    title: String,
    output_dir: String,
) -> QueueItemConfig {
    QueueItemConfig {
        url,
        platform,
        title,
        output_dir,
        download_mode: None,
        quality: None,
        video_format: None,
        audio_format: None,
        audio_quality: None,
        format_id: None,
        referer: None,
        extra_headers: None,
        page_url: None,
        user_agent: None,
        download_subtitles: None,
        ytdlp_path: None,
        from_hotkey: false,
    }
}

impl EnqueueRequest {
    /// A request for `url` on `platform`, saved to `output_dir`, with no options set.
    pub fn new(url: String, platform: String, title: String, output_dir: String) -> (r: Self)
        ensures
            r.config == base_config(url, platform, title, output_dir),
            r.media_info is None,
            r.total_bytes is None,
            r.file_count is None,
    {
        EnqueueRequest {
            config: QueueItemConfig {
                url,
                platform,
                title,
                output_dir,
                download_mode: None,
                quality: None,
                video_format: None,
                audio_format: None,
                audio_quality: None,
                format_id: None,
                referer: None,
                extra_headers: None,
                page_url: None,
                user_agent: None,
                download_subtitles: None,
                ytdlp_path: None,
                from_hotkey: false,
            },
            media_info: None,
            total_bytes: None,
            file_count: None,
        }
    }

    /// Sets the requested quality.
    pub fn quality(self, quality: Option<String>) -> (r: Self)
        ensures
            r.config == (QueueItemConfig { quality: quality, ..self.config }),
            r.media_info == self.media_info,
            r.total_bytes == self.total_bytes,
            r.file_count == self.file_count,
    {
        let mut r = self;
        r.config.quality = quality;
        r
    }

    /// Sets the video container format.
    pub fn video_format(self, format: Option<String>) -> (r: Self)
        ensures
            r.config == (QueueItemConfig { video_format: format, ..self.config }),
            r.media_info == self.media_info,
            r.total_bytes == self.total_bytes,
            r.file_count == self.file_count,
    {
        let mut r = self;
        r.config.video_format = format;
        r
    }

    /// Sets the audio format.
    pub fn audio_format(self, format: Option<String>) -> (r: Self)
        ensures
            r.config == (QueueItemConfig { audio_format: format, ..self.config }),
            r.media_info == self.media_info,
            r.total_bytes == self.total_bytes,
            r.file_count == self.file_count,
    {
        let mut r = self;
        r.config.audio_format = format;
        r
    }

    /// Sets the audio quality.
    pub fn audio_quality(self, quality: Option<String>) -> (r: Self)
        ensures
            r.config == (QueueItemConfig { audio_quality: quality, ..self.config }),
            r.media_info == self.media_info,
            r.total_bytes == self.total_bytes,
            r.file_count == self.file_count,
    {
        let mut r = self;
        r.config.audio_quality = quality;
        r
    }

    /// Sets the download mode.
    pub fn download_mode(self, mode: Option<String>) -> (r: Self)
        ensures
            r.config == (QueueItemConfig { download_mode: mode, ..self.config }),
            r.media_info == self.media_info,
            r.total_bytes == self.total_bytes,
            r.file_count == self.file_count,
    {
        let mut r = self;
        r.config.download_mode = mode;
        r
    }

    /// Sets the platform's format identifier.
    pub fn format_id(self, id: Option<String>) -> (r: Self)
        ensures
            r.config == (QueueItemConfig { format_id: id, ..self.config }),
            r.media_info == self.media_info,
            r.total_bytes == self.total_bytes,
            r.file_count == self.file_count,
    {
        let mut r = self;
        r.config.format_id = id;
        r
    }

    /// Sets whether subtitles are fetched.
    pub fn download_subtitles(self, subtitles: Option<bool>) -> (r: Self)
        ensures
            r.config == (QueueItemConfig { download_subtitles: subtitles, ..self.config }),
            r.media_info == self.media_info,
            r.total_bytes == self.total_bytes,
            r.file_count == self.file_count,
    {
        let mut r = self;
        r.config.download_subtitles = subtitles;
        r
    }

    /// Sets the referer sent with requests.
    pub fn referer(self, referer: Option<String>) -> (r: Self)
        ensures
            r.config == (QueueItemConfig { referer: referer, ..self.config }),
            r.media_info == self.media_info,
            r.total_bytes == self.total_bytes,
            r.file_count == self.file_count,
    {
        let mut r = self;
        r.config.referer = referer;
        r
    }

    /// Sets extra request headers.
    pub fn extra_headers(self, headers: Option<HashMap<String, String>>) -> (r: Self)
        ensures
            r.config == (QueueItemConfig { extra_headers: headers, ..self.config }),
            r.media_info == self.media_info,
            r.total_bytes == self.total_bytes,
            r.file_count == self.file_count,
    {
        let mut r = self;
        r.config.extra_headers = headers;
        r
    }

    /// Sets the page the link was found on.
    pub fn page_url(self, url: Option<String>) -> (r: Self)
        ensures
            r.config == (QueueItemConfig { page_url: url, ..self.config }),
            r.media_info == self.media_info,
            r.total_bytes == self.total_bytes,
            r.file_count == self.file_count,
    {
        let mut r = self;
        r.config.page_url = url;
        r
    }

    /// Sets the user agent.
    pub fn user_agent(self, ua: Option<String>) -> (r: Self)
        ensures
            r.config == (QueueItemConfig { user_agent: ua, ..self.config }),
            r.media_info == self.media_info,
            r.total_bytes == self.total_bytes,
            r.file_count == self.file_count,
    {
        let mut r = self;
        r.config.user_agent = ua;
        r
    }

    /// Sets the downloader binary to use.
    pub fn ytdlp_path(self, path: Option<PathBuf>) -> (r: Self)
        ensures
            r.config == (QueueItemConfig { ytdlp_path: path, ..self.config }),
            r.media_info == self.media_info,
            r.total_bytes == self.total_bytes,
            r.file_count == self.file_count,
    {
        let mut r = self;
        r.config.ytdlp_path = path;
        r
    }

    /// Marks the request as started from the hotkey.
    pub fn from_hotkey(self, from_hotkey: bool) -> (r: Self)
        ensures
            r.config == (QueueItemConfig { from_hotkey: from_hotkey, ..self.config }),
            r.media_info == self.media_info,
            r.total_bytes == self.total_bytes,
            r.file_count == self.file_count,
    {
        let mut r = self;
        r.config.from_hotkey = from_hotkey;
        r
    }

    /// Attaches pre-fetched media information; its reported size, when there
    /// is information, becomes the expected total.
    pub fn media_info(self, info: Option<MediaInfo>) -> (r: Self)
        ensures
            r.config == self.config,
            r.media_info == info,
            r.total_bytes == (match info {
                Some(i) => i.file_size_bytes,
                None => self.total_bytes,
            }),
            r.file_count == self.file_count,
    {
        let mut r = self;
        if let Some(ref i) = info {
            r.total_bytes = i.file_size_bytes;
        }
        r.media_info = info;
        r
    }

    /// Sets the expected total size.
    pub fn total_bytes(self, bytes: Option<u64>) -> (r: Self)
        ensures
            r.config == self.config,
            r.media_info == self.media_info,
            r.total_bytes == bytes,
            r.file_count == self.file_count,
    {
        let mut r = self;
        r.total_bytes = bytes;
        r
    }

    /// Sets the expected number of files.
    pub fn file_count(self, count: Option<u32>) -> (r: Self)
        ensures
            r.config == self.config,
            r.media_info == self.media_info,
            r.total_bytes == self.total_bytes,
            r.file_count == count,
    {
        let mut r = self;
        r.file_count = count;
        r
    }
}

} // verus!
