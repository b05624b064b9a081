use xhs_rs::api::media::download::{
    check_download, download_media, is_url_allowed, DownloadRequest,
};
use xhs_rs::api::media::images::{get_image_urls, ImagesRequest};
use xhs_rs::api::media::video::{
    get_video_urls, sort_largest_first, MediaError, VideoItem, VideoRequest,
};

fn video_request() -> VideoRequest {
    VideoRequest { note_id: "n1".to_string(), xsec_token: "t".to_string() }
}

fn images_request() -> ImagesRequest {
    ImagesRequest { note_id: "n1".to_string(), xsec_token: "t".to_string() }
}

fn details(card: &str) -> String {
    format!("{{\"success\":true,\"data\":{{\"items\":[{{\"note_card\":{}}}]}}}}", card)
}

fn item(quality: &str, size: i64) -> VideoItem {
    VideoItem {
        quality: quality.to_string(),
        url: "u".to_string(),
        backup_url: None,
        width: 1,
        height: 1,
        size,
        codec: "h264".to_string(),
    }
}

#[test]
fn video_streams_are_read_and_sorted_by_size() {
    let card = r#"{
        "type": "video",
        "title": "A title",
        "user": {"nickname": "Ann"},
        "image_list": [{"url_default": "https://cdn/cover.jpg"}],
        "video": {
            "capa": {"duration": 12},
            "media": {"stream": {
                "h265": [
                    {"master_url": "https://cdn/a", "width": 1920, "height": 1080, "size": 500,
                     "backup_urls": ["https://cdn/a2", "https://cdn/a3"]},
                    {"master_url": "https://cdn/broken", "width": 1, "height": 1}
                ],
                "h264": [
                    {"master_url": "https://cdn/b", "width": 1280, "height": 720, "size": 900},
                    {"master_url": "https://cdn/c", "width": 640, "height": 360, "size": 500,
                     "backup_urls": []}
                ]
            }}
        }
    }"#;
    let answer = get_video_urls(video_request(), &details(card)).unwrap();
    assert!(answer.success);
    assert!(answer.msg.is_none());
    let data = answer.data.unwrap();
    assert_eq!(data.note_id, "n1");
    assert_eq!(data.title, "A title");
    assert_eq!(data.author, "Ann");
    assert_eq!(data.duration, 12_000);
    assert_eq!(data.cover.as_deref(), Some("https://cdn/cover.jpg"));
    let seen: Vec<(&str, &str, i64)> =
        data.videos.iter().map(|v| (v.quality.as_str(), v.url.as_str(), v.size)).collect();
    assert_eq!(
        seen,
        vec![
            ("h264_720p", "https://cdn/b", 900),
            ("hevc_1080p", "https://cdn/a", 500),
            ("h264_480p", "https://cdn/c", 500),
        ]
    );
    assert_eq!(data.videos[1].backup_url.as_deref(), Some("https://cdn/a2"));
    assert_eq!(data.videos[1].codec, "hevc");
    assert_eq!((data.videos[1].width, data.videos[1].height), (1920, 1080));
    assert!(data.videos[0].backup_url.is_none());
    assert!(data.videos[2].backup_url.is_none());
}

#[test]
fn resolution_names_by_height() {
    let card = r#"{"type":"video","video":{"media":{"stream":{"h264":[
        {"master_url":"a","width":1,"height":1079,"size":4},
        {"master_url":"b","width":1,"height":1080,"size":3},
        {"master_url":"c","width":1,"height":720,"size":2},
        {"master_url":"d","width":1,"height":719,"size":1}
    ]}}}}"#;
    let data = get_video_urls(video_request(), &details(card)).unwrap().data.unwrap();
    let names: Vec<&str> = data.videos.iter().map(|v| v.quality.as_str()).collect();
    assert_eq!(names, vec!["h264_720p", "h264_1080p", "h264_720p", "h264_480p"]);
    assert_eq!(data.title, "");
    assert_eq!(data.author, "");
    assert_eq!(data.duration, 0);
    assert!(data.cover.is_none());
}

#[test]
fn a_video_without_streams_is_still_a_success() {
    let data = get_video_urls(video_request(), &details(r#"{"type":"video"}"#)).unwrap().data.unwrap();
    assert!(data.videos.is_empty());
}

#[test]
fn video_duration_stays_within_range() {
    let card = r#"{"type":"video","video":{"capa":{"duration":9223372036854775807}}}"#;
    let data = get_video_urls(video_request(), &details(card)).unwrap().data.unwrap();
    assert_eq!(data.duration, i64::MAX);
    let card = r#"{"type":"video","video":{"capa":{"duration":-9223372036854775808}}}"#;
    let data = get_video_urls(video_request(), &details(card)).unwrap().data.unwrap();
    assert_eq!(data.duration, i64::MIN);
}

#[test]
fn a_note_that_is_no_video_is_refused() {
    let answer = get_video_urls(video_request(), &details(r#"{"type":"normal"}"#)).unwrap();
    assert!(!answer.success);
    assert_eq!(answer.msg.as_deref(), Some("This note is not a video"));
    assert!(answer.data.is_none());
    let answer = get_video_urls(video_request(), &details("{}")).unwrap();
    assert_eq!(answer.msg.as_deref(), Some("This note is not a video"));
}

#[test]
fn details_that_report_failure_pass_their_message_on() {
    let answer = get_video_urls(video_request(), r#"{"success":false,"msg":"gone"}"#).unwrap();
    assert!(!answer.success);
    assert_eq!(answer.msg.as_deref(), Some("gone"));
    let answer = get_video_urls(video_request(), r#"{"code":0}"#).unwrap();
    assert_eq!(answer.msg.as_deref(), Some("Unknown error"));
    let answer = get_image_urls(images_request(), r#"{"success":"true"}"#).unwrap();
    assert_eq!(answer.msg.as_deref(), Some("Unknown error"));
}

#[test]
fn details_without_a_note_are_an_error() {
    assert_eq!(
        get_video_urls(video_request(), r#"{"success":true,"data":{"items":[]}}"#).err(),
        Some(MediaError::NoNoteCard)
    );
    assert_eq!(
        get_image_urls(images_request(), r#"{"success":true}"#).err(),
        Some(MediaError::NoNoteCard)
    );
}

#[test]
fn details_that_are_no_json_are_an_error() {
    assert_eq!(get_video_urls(video_request(), "<html>").err(), Some(MediaError::Unreadable));
    assert_eq!(get_image_urls(images_request(), "").err(), Some(MediaError::Unreadable));
}

#[test]
fn sorting_is_stable_and_descending() {
    let sorted = sort_largest_first(vec![
        item("a", 5),
        item("b", 9),
        item("c", 5),
        item("d", 1),
        item("e", 9),
        item("f", 5),
    ]);
    let order: Vec<&str> = sorted.iter().map(|v| v.quality.as_str()).collect();
    assert_eq!(order, vec!["b", "e", "a", "c", "f", "d"]);
    assert!(sort_largest_first(vec![]).is_empty());
}

#[test]
fn images_are_read_with_their_places() {
    let card = r#"{
        "type": "normal",
        "title": "Pictures",
        "desc": "three of them",
        "user": {"nickname": "Bob"},
        "image_list": [
            {"width": 100, "height": 200, "url_pre": "https://cdn/1-pre", "url_default": "https://cdn/1-dft"},
            {"width": 100, "url_pre": "https://cdn/no-height", "url_default": "x"},
            {"width": 300, "height": 400, "url_pre": "", "info_list": [
                {"image_scene": "WB_DFT", "url": "https://cdn/3-dft"},
                {"image_scene": "WB_PRV", "url": "https://cdn/3-prv"},
                {"image_scene": "WB_PRV", "url": "https://cdn/3-later"}
            ]}
        ]
    }"#;
    let answer = get_image_urls(images_request(), &details(card)).unwrap();
    assert!(answer.success);
    let data = answer.data.unwrap();
    assert_eq!(data.note_id, "n1");
    assert_eq!(data.title, "Pictures");
    assert_eq!(data.author, "Bob");
    assert_eq!(data.desc.as_deref(), Some("three of them"));
    assert_eq!(data.image_count, 2);
    assert_eq!(data.images.len(), 2);
    assert_eq!(data.images[0].index, 1);
    assert_eq!((data.images[0].width, data.images[0].height), (100, 200));
    assert_eq!(data.images[0].url_original, "https://cdn/1-pre");
    assert_eq!(data.images[0].url_watermark, "https://cdn/1-dft");
    assert_eq!(data.images[1].index, 3);
    assert_eq!(data.images[1].url_original, "https://cdn/3-prv");
    assert_eq!(data.images[1].url_watermark, "https://cdn/3-dft");
}

#[test]
fn an_image_whose_scene_has_no_address_is_skipped() {
    let card = r#"{"image_list": [
        {"width": 1, "height": 1, "url_default": "d", "info_list": [
            {"image_scene": "WB_PRV"}, {"image_scene": "WB_PRV", "url": "late"}]},
        {"width": 1, "height": 1, "url_pre": "p", "url_default": "d"}
    ]}"#;
    let data = get_image_urls(images_request(), &details(card)).unwrap().data.unwrap();
    assert_eq!(data.images.len(), 1);
    assert_eq!(data.images[0].index, 2);
    assert!(data.desc.is_none());
}

#[test]
fn image_dimensions_are_truncated_to_32_bits() {
    let card = r#"{"image_list": [
        {"width": 4294967297, "height": -1, "url_pre": "p", "url_default": "d"}]}"#;
    let data = get_image_urls(images_request(), &details(card)).unwrap().data.unwrap();
    assert_eq!(data.images[0].width, 1);
    assert_eq!(data.images[0].height, -1);
}

#[test]
fn a_video_has_no_images() {
    let answer = get_image_urls(images_request(), &details(r#"{"type":"video"}"#)).unwrap();
    assert!(!answer.success);
    assert_eq!(
        answer.msg.as_deref(),
        Some("This note is a video, not an image note. Use /api/note/video instead.")
    );
}

#[test]
fn a_note_without_images_is_refused() {
    for card in [r#"{"type":"normal"}"#, r#"{"image_list":[]}"#, r#"{"image_list":[{"width":1}]}"#] {
        let answer = get_image_urls(images_request(), &details(card)).unwrap();
        assert!(!answer.success);
        assert_eq!(answer.msg.as_deref(), Some("No images found in this note"));
        assert!(answer.data.is_none());
    }
}

#[test]
fn only_the_platforms_domains_may_be_fetched() {
    assert!(is_url_allowed("https://sns-video-bd.xhscdn.com/stream/1.mp4"));
    assert!(is_url_allowed("https://www.xiaohongshu.com/x.jpg"));
    assert!(is_url_allowed("xhscdn.com"));
    assert!(!is_url_allowed("https://example.com/video.mp4"));
    assert!(!is_url_allowed("https://xhscdn.co/m"));
    assert!(!is_url_allowed(""));
    // the domain is looked for anywhere in the address
    assert!(is_url_allowed("https://example.com/?from=xhscdn.com"));
}

#[test]
fn a_download_from_elsewhere_is_refused_before_it_starts() {
    let req = DownloadRequest { url: "https://example.com/a".into(), save_path: "./a".into() };
    let answer = check_download(&req).unwrap();
    assert!(!answer.success);
    assert_eq!(
        answer.msg.as_deref(),
        Some("URL domain not in whitelist. Only xhscdn.com and xiaohongshu.com are allowed.")
    );
    assert!(answer.data.is_none());
    let req = DownloadRequest { url: "https://a.xhscdn.com/a".into(), save_path: "./a".into() };
    assert!(check_download(&req).is_none());
}

#[test]
fn a_finished_download_names_the_file() {
    let req = DownloadRequest { url: "https://a.xhscdn.com/a".into(), save_path: "./d/a.mp4".into() };
    let answer = download_media(req.clone(), 200, Some("video/mp4".into()), 1234);
    assert!(answer.success);
    assert!(answer.msg.is_none());
    let data = answer.data.unwrap();
    assert_eq!(data.saved_path, "./d/a.mp4");
    assert_eq!(data.file_size, 1234);
    assert_eq!(data.content_type, "video/mp4");
    let answer = download_media(req, 206, None, 0);
    assert_eq!(answer.data.unwrap().content_type, "application/octet-stream");
}

#[test]
fn a_failed_download_names_the_status() {
    let req = DownloadRequest { url: "https://a.xhscdn.com/a".into(), save_path: "./a".into() };
    for (status, text) in [(404u16, "404"), (199, "199"), (300, "300"), (0, "0"), (65535, "65535")] {
        let answer = download_media(req.clone(), status, None, 9);
        assert!(!answer.success);
        assert_eq!(answer.msg, Some(format!("Download failed with status: {}", text)));
        assert!(answer.data.is_none());
    }
}
