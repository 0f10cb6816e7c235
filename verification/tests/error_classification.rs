use mangofetch::errors::{user_error_message, DownloadError};

#[test]
fn test_auth_required() {
    let err = DownloadError::from_message("Please login to continue");
    assert_eq!(err.code(), "auth_required");
    let err = DownloadError::from_message("HTTP Error 403: Forbidden");
    assert_eq!(err.code(), "auth_required");
    let err = DownloadError::from_message("authentication failed");
    assert_eq!(err.code(), "auth_required");
}

#[test]
fn test_rate_limited() {
    let err = DownloadError::from_message("Too many requests");
    assert_eq!(err.code(), "rate_limited");
    let err = DownloadError::from_message("HTTP Error 429");
    assert_eq!(err.code(), "rate_limited");
    let err = DownloadError::from_message("captcha required");
    assert_eq!(err.code(), "rate_limited");
}

#[test]
fn test_restricted() {
    let err = DownloadError::from_message("This video is private");
    assert_eq!(err.code(), "restricted");
    let err = DownloadError::from_message("age-restricted content");
    assert_eq!(err.code(), "restricted");
}

#[test]
fn test_file_missing() {
    let err = DownloadError::from_message("downloaded file not found on disk");
    assert_eq!(err.code(), "file_missing");
}

#[test]
fn test_not_found() {
    let err = DownloadError::from_message("404 Not Found");
    assert_eq!(err.code(), "not_found");
    let err = DownloadError::from_message("The video has been deleted");
    assert_eq!(err.code(), "not_found");
    let err = DownloadError::from_message("content unavailable");
    assert_eq!(err.code(), "not_found");
}

#[test]
fn test_ffmpeg_needed() {
    let err = DownloadError::from_message("ffmpeg is required");
    assert_eq!(err.code(), "ffmpeg_needed");
    let err = DownloadError::from_message("error while muxing");
    assert_eq!(err.code(), "ffmpeg_needed");
}

#[test]
fn test_ytdlp_needed() {
    let err = DownloadError::from_message("yt-dlp is missing");
    assert_eq!(err.code(), "ytdlp_needed");
    let err = DownloadError::from_message("no downloader found");
    assert_eq!(err.code(), "ytdlp_needed");
}

#[test]
fn test_ytdlp_outdated() {
    let err = DownloadError::from_message("Unable to extract nsig");
    assert_eq!(err.code(), "ytdlp_outdated");
    let err = DownloadError::from_message("signature decryption failed");
    assert_eq!(err.code(), "ytdlp_outdated");
}

#[test]
fn test_unknown() {
    let err = DownloadError::from_message("some random error");
    assert_eq!(err.code(), "unknown");
    match err {
        DownloadError::Unknown(msg) => assert_eq!(msg, "some random error"),
        _ => panic!("Expected Unknown variant"),
    }
}

#[test]
fn test_case_insensitivity() {
    let err = DownloadError::from_message("LOGIN REQUIRED");
    assert_eq!(err.code(), "auth_required");
}

#[test]
fn test_no_false_positive_cookie() {
    // "cookies from browser" should not match as auth error
    let err = DownloadError::from_message("Using cookies from browser");
    assert_eq!(err.code(), "unknown");
}

#[test]
fn unknown_keeps_original_case() {
    match DownloadError::from_message("Weird FAILURE") {
        DownloadError::Unknown(msg) => assert_eq!(msg, "Weird FAILURE"),
        other => panic!("unexpected {:?}", other),
    }
}

#[test]
fn rules_apply_in_order() {
    // Both an auth word and a rate-limit word: the auth rule comes first.
    assert_eq!(DownloadError::from_message("login blocked by captcha").code(), "auth_required");
    // "age" inside another word still counts as restricted, before "not found".
    assert_eq!(DownloadError::from_message("page not found").code(), "restricted");
    // "authentication" alone is not enough for the auth rule.
    assert_eq!(DownloadError::from_message("authentication ok").code(), "unknown");
    assert_eq!(DownloadError::from_message("cipher mismatch").code(), "ytdlp_outdated");
    assert_eq!(DownloadError::from_message("could not merge formats").code(), "ffmpeg_needed");
    assert_eq!(DownloadError::from_message("ytdlp crashed").code(), "ytdlp_needed");
    assert_eq!(DownloadError::from_message("Sign In to confirm").code(), "auth_required");
    assert_eq!(DownloadError::from_message("").code(), "unknown");
}

#[test]
fn hints_match_codes() {
    assert_eq!(
        DownloadError::RateLimited.hint(),
        "Too many requests. Try again in a few minutes."
    );
    assert_eq!(DownloadError::Unknown("x".to_string()).hint(), "");
    assert_eq!(DownloadError::FfmpegNeeded.code(), "ffmpeg_needed");
    assert_eq!(
        DownloadError::NotFound.hint(),
        "Content not found or has been deleted."
    );
}

#[test]
fn user_message_for_known_and_unknown_errors() {
    assert_eq!(
        user_error_message("HTTP Error 429"),
        "Too many requests. Try again in a few minutes. (HTTP Error 429)"
    );
    assert_eq!(user_error_message("disk on fire"), "disk on fire");
}
