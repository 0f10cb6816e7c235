use vstd::prelude::*;
use crate::text::{chars_of, contains_str, joined, lowercase, owned_text, seq_contains, to_lowercase};

verus! {

/// Strongly-typed download error classification.
#[derive(Debug, Clone)]
pub enum DownloadError {
    AuthRequired,
    RateLimited,
    Restricted,
    FileMissing,
    NotFound,
    FfmpegNeeded,
    YtdlpNeeded,
    YtdlpOutdated,
    Unknown(String),
}

/// The mathematical value of a [`DownloadError`]: the same variants, with the
/// unclassified message as a character sequence.
pub enum DownloadErrorView {
    AuthRequired,
    RateLimited,
    Restricted,
    FileMissing,
    NotFound,
    FfmpegNeeded,
    YtdlpNeeded,
    YtdlpOutdated,
    Unknown(Seq<char>),
}

impl View for DownloadError {
    type V = DownloadErrorView;

    open spec fn view(&self) -> DownloadErrorView {
        match self {
            DownloadError::AuthRequired => DownloadErrorView::AuthRequired,
            DownloadError::RateLimited => DownloadErrorView::RateLimited,
            DownloadError::Restricted => DownloadErrorView::Restricted,
            DownloadError::FileMissing => DownloadErrorView::FileMissing,
            DownloadError::NotFound => DownloadErrorView::NotFound,
            DownloadError::FfmpegNeeded => DownloadErrorView::FfmpegNeeded,
            DownloadError::YtdlpNeeded => DownloadErrorView::YtdlpNeeded,
            DownloadError::YtdlpOutdated => DownloadErrorView::YtdlpOutdated,
            DownloadError::Unknown(m) => DownloadErrorView::Unknown(m@),
        }
    }
}

impl DownloadErrorView {
    /// The machine-readable code of each classification.
    pub open spec fn code_text(self) -> Seq<char> {
        match self {
            DownloadErrorView::AuthRequired => "auth_required"@,
            DownloadErrorView::RateLimited => "rate_limited"@,
            DownloadErrorView::Restricted => "restricted"@,
            DownloadErrorView::FileMissing => "file_missing"@,
            DownloadErrorView::NotFound => "not_found"@,
            DownloadErrorView::FfmpegNeeded => "ffmpeg_needed"@,
            DownloadErrorView::YtdlpNeeded => "ytdlp_needed"@,
            DownloadErrorView::YtdlpOutdated => "ytdlp_outdated"@,
            DownloadErrorView::Unknown(_) => "unknown"@,
        }
    }

    /// The user-facing hint of each classification (empty for unknown errors).
    pub open spec fn hint_text(self) -> Seq<char> {
        match self {
            DownloadErrorView::AuthRequired => "This content requires login. Install the browser extension and visit the site while logged in."@,
            DownloadErrorView::RateLimited => "Too many requests. Try again in a few minutes."@,
            DownloadErrorView::Restricted => "This content is private or age-restricted."@,
            DownloadErrorView::FileMissing => "Downloaded file could not be located in the output folder."@,
            DownloadErrorView::NotFound => "Content not found or has been deleted."@,
            DownloadErrorView::FfmpegNeeded => "FFmpeg is required for this download. Install it from Settings."@,
            DownloadErrorView::YtdlpNeeded => "yt-dlp is required. Install it from Settings."@,
            DownloadErrorView::YtdlpOutdated => "yt-dlp needs updating. Restart the app to auto-update."@,
            DownloadErrorView::Unknown(_) => ""@,
        }
    }
}

/// The classification rules, applied in order to the lower-cased message;
/// `original` is kept for messages that match no rule.
pub open spec fn classify(lower: Seq<char>, original: Seq<char>) -> DownloadErrorView {
    if (seq_contains(lower, "authentication"@) && seq_contains(lower, "fail"@)) || seq_contains(
        lower,
        "login"@,
    ) || seq_contains(lower, "sign in"@) || seq_contains(lower, "403"@) {
        DownloadErrorView::AuthRequired
    } else if seq_contains(lower, "captcha"@) || seq_contains(lower, "blocking"@) || seq_contains(
        lower,
        "rate limit"@,
    ) || seq_contains(lower, "429"@) || seq_contains(lower, "too many"@) {
        DownloadErrorView::RateLimited
    } else if seq_contains(lower, "private"@) || seq_contains(lower, "restricted"@)
        || seq_contains(lower, "age"@) {
        DownloadErrorView::Restricted
    } else if seq_contains(lower, "downloaded file"@) && seq_contains(lower, "not found"@) {
        DownloadErrorView::FileMissing
    } else if seq_contains(lower, "not found"@) || seq_contains(lower, "404"@) || seq_contains(
        lower,
        "unavailable"@,
    ) || seq_contains(lower, "deleted"@) {
        DownloadErrorView::NotFound
    } else if seq_contains(lower, "ffmpeg"@) || seq_contains(lower, "mux"@) || seq_contains(
        lower,
        "merge"@,
    ) {
        DownloadErrorView::FfmpegNeeded
    } else if seq_contains(lower, "yt-dlp"@) || seq_contains(lower, "ytdlp"@) || seq_contains(
        lower,
        "no downloader"@,
    ) {
        DownloadErrorView::YtdlpNeeded
    } else if seq_contains(lower, "nsig"@) || seq_contains(lower, "signature"@) || seq_contains(
        lower,
        "cipher"@,
    ) {
        DownloadErrorView::YtdlpOutdated
    } else {
        DownloadErrorView::Unknown(original)
    }
}

impl DownloadError {
    /// Get the error code for UI/logging.
    pub fn code(&self) -> (c: &'static str)
        ensures
            c@ == self@.code_text(),
    {
        match self {
            DownloadError::AuthRequired => "auth_required",
            DownloadError::RateLimited => "rate_limited",
            DownloadError::Restricted => "restricted",
            DownloadError::FileMissing => "file_missing",
            DownloadError::NotFound => "not_found",
            DownloadError::FfmpegNeeded => "ffmpeg_needed",
            DownloadError::YtdlpNeeded => "ytdlp_needed",
            DownloadError::YtdlpOutdated => "ytdlp_outdated",
            DownloadError::Unknown(_) => "unknown",
        }
    }

    /// Get the user-facing hint message.
    pub fn hint(&self) -> (h: &'static str)
        ensures
            h@ == self@.hint_text(),
    {
        match self {
            DownloadError::AuthRequired => "This content requires login. Install the browser extension and visit the site while logged in.",
            DownloadError::RateLimited => "Too many requests. Try again in a few minutes.",
            DownloadError::Restricted => "This content is private or age-restricted.",
            DownloadError::FileMissing => "Downloaded file could not be located in the output folder.",
            DownloadError::NotFound => "Content not found or has been deleted.",
            DownloadError::FfmpegNeeded => "FFmpeg is required for this download. Install it from Settings.",
            DownloadError::YtdlpNeeded => "yt-dlp is required. Install it from Settings.",
            DownloadError::YtdlpOutdated => "yt-dlp needs updating. Restart the app to auto-update.",
            DownloadError::Unknown(_) => "",
        }
    }

    /// Classify an error from its message.
    pub fn from_message(error: &str) -> (e: DownloadError)
        ensures
            e@ == classify(lowercase(error@), error@),
    {
        let lower = to_lowercase(error);
        Self::classify_lowercase(lower.as_str(), error)
    }

    /// Classify a message whose lower-cased form is `lower`; `original` is the
    /// message as it was written, kept for errors that match no rule.
    pub fn classify_lowercase(lower: &str, original: &str) -> (e: DownloadError)
        ensures
            e@ == classify(lower@, original@),
    {
        let l = chars_of(lower);
        // Auth errors: specific auth indicators, not generic "cookie" mentions.
        if (contains_str(&l, "authentication") && contains_str(&l, "fail")) || contains_str(
            &l,
            "login",
        ) || contains_str(&l, "sign in") || contains_str(&l, "403") {
            return DownloadError::AuthRequired;
        }
        if contains_str(&l, "captcha") || contains_str(&l, "blocking") || contains_str(
            &l,
            "rate limit",
        ) || contains_str(&l, "429") || contains_str(&l, "too many") {
            return DownloadError::RateLimited;
        }
        if contains_str(&l, "private") || contains_str(&l, "restricted") || contains_str(&l, "age") {
            return DownloadError::Restricted;
        }
        if contains_str(&l, "downloaded file") && contains_str(&l, "not found") {
            return DownloadError::FileMissing;
        }
        if contains_str(&l, "not found") || contains_str(&l, "404") || contains_str(
            &l,
            "unavailable",
        ) || contains_str(&l, "deleted") {
            return DownloadError::NotFound;
        }
        if contains_str(&l, "ffmpeg") || contains_str(&l, "mux") || contains_str(&l, "merge") {
            return DownloadError::FfmpegNeeded;
        }
        if contains_str(&l, "yt-dlp") || contains_str(&l, "ytdlp") || contains_str(
            &l,
            "no downloader",
        ) {
            return DownloadError::YtdlpNeeded;
        }
        if contains_str(&l, "nsig") || contains_str(&l, "signature") || contains_str(&l, "cipher") {
            return DownloadError::YtdlpOutdated;
        }
        DownloadError::Unknown(owned_text(original))
    }
}

/// The message shown to the user for a failed download: the hint of a
/// recognised error followed by the raw message in brackets, or the raw message
/// alone.
pub open spec fn user_message_text(raw: Seq<char>) -> Seq<char> {
    let e = classify(lowercase(raw), raw);
    if e is Unknown {
        raw
    } else {
        e.hint_text() + " ("@ + raw + ")"@
    }
}

/// The message shown to the user for a failed download with this raw message.
pub fn user_error_message(raw: &str) -> (m: String)
    ensures
        m@ == user_message_text(raw@),
{
    let e = DownloadError::from_message(raw);
    if matches!(e, DownloadError::Unknown(_)) {
        owned_text(raw)
    } else {
        let mut m = joined(e.hint(), " (");
        m.append(raw);
        m.append(")");
        m
    }
}

} // verus!
