use mpv_sponsorblock::utils::get_youtube_id;

#[test]
fn parse_youtube_id() {
    assert_eq!(
        get_youtube_id("https://youtu.be/dQw4w9WgXcQ"),
        Some("dQw4w9WgXcQ".to_string())
    );
    assert_eq!(
        get_youtube_id("http://youtu.be/dQw4w9WgXcQ"),
        Some("dQw4w9WgXcQ".to_string())
    );
    assert_eq!(
        get_youtube_id("https://youtube.com/v/dQw4w9WgXcQ"),
        Some("dQw4w9WgXcQ".to_string())
    );
    assert_eq!(
        get_youtube_id("https://www.youtube.com/v/dQw4w9WgXcQ"),
        Some("dQw4w9WgXcQ".to_string())
    );
    assert_eq!(
        get_youtube_id("https://www.youtube.com/watch?v=dQw4w9WgXcQ"),
        Some("dQw4w9WgXcQ".to_string())
    );
    assert_eq!(
        get_youtube_id("https://www.youtube.com/watch?v=dQw4w9WgXcQ&t=20s"),
        Some("dQw4w9WgXcQ".to_string())
    );
    assert_eq!(
        get_youtube_id("https://youtu.be/watch?v=dQw4w9WgXcQ"),
        Some("dQw4w9WgXcQ".to_string())
    );
    assert_eq!(
        get_youtube_id("https://www.youtube.com/embed/dQw4w9WgXcQ"),
        Some("dQw4w9WgXcQ".to_string())
    );
    assert_eq!(
        get_youtube_id("https://piped.kavin.rocks/watch?v=dQw4w9WgXcQ"),
        Some("dQw4w9WgXcQ".to_string())
    );
    assert_eq!(get_youtube_id("file:///home/me/videos/some_video_file.mkv"), None);
}

#[test]
fn parse_embedded_in_longer_text() {
    // the URL may sit anywhere in the path; the leftmost match wins
    assert_eq!(
        get_youtube_id("ytdl://https://youtu.be/dQw4w9WgXcQ"),
        Some("dQw4w9WgXcQ".to_string())
    );
    assert_eq!(
        get_youtube_id("https://youtu.be/short https://youtu.be/dQw4w9WgXcQ"),
        Some("dQw4w9WgXcQ".to_string())
    );
}

#[test]
fn parse_rejects_near_misses() {
    // identifier shorter than eleven characters
    assert_eq!(get_youtube_id("https://youtu.be/shortid"), None);
    // unsupported host
    assert_eq!(get_youtube_id("https://vimeo.com/watch?v=dQw4w9WgXcQ"), None);
    // no scheme at all
    assert_eq!(get_youtube_id("youtube.com/watch?v=dQw4w9WgXcQ"), None);
    assert_eq!(get_youtube_id(""), None);
}

#[test]
fn parse_takes_first_eleven_id_chars() {
    // a longer identifier-like tail still yields its first eleven characters
    assert_eq!(
        get_youtube_id("https://www.youtube.com/watch?v=dQw4w9WgXcQtrailing"),
        Some("dQw4w9WgXcQ".to_string())
    );
}
