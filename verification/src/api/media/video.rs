//! The download addresses of a video note, read from the note's details.

use crate::json::{
    as_text, flag_at, integer_at, integer_by_pointer, items_at, items_by_pointer, json_parsed,
    json_pointer, json_text, parse, pointer, read_flag, read_integer, read_integer_by_pointer,
    read_items, read_items_by_pointer, read_text, read_text_by_pointer, text_at, text_by_pointer,
};
use crate::text::{clone_text, followed_by, or_empty, same_text, text_of, text_or_empty};
use vstd::prelude::*;
use vstd::string::StringExecFns;

verus! {

/// The path that note details are posted to.
pub const NOTE_FEED_PATH: &'static str = "/api/sns/web/v1/feed";

/// The message of an answer that names none.
pub const UNKNOWN_ERROR: &'static str = "Unknown error";

/// The message for a note that is no video.
pub const NOT_A_VIDEO: &'static str = "This note is not a video";

/// A request for the download addresses of a video note.
#[derive(Debug, Clone)]
pub struct VideoRequest {
    pub note_id: String,
    /// The token that the feed or the search gave for the note.
    pub xsec_token: String,
}

/// The answer to such a request.
#[derive(Debug)]
pub struct VideoResponse {
    pub success: bool,
    pub msg: Option<String>,
    pub data: Option<VideoData>,
}

/// A video note and its streams.
#[derive(Debug)]
pub struct VideoData {
    pub note_id: String,
    pub title: String,
    pub author: String,
    /// Length in milliseconds.
    pub duration: i64,
    /// The streams, largest first.
    pub videos: Vec<VideoItem>,
    /// The address of the cover.
    pub cover: Option<String>,
}

/// One stream of a video.
#[derive(Debug)]
pub struct VideoItem {
    /// Codec and resolution, such as `hevc_1080p`.
    pub quality: String,
    pub url: String,
    pub backup_url: Option<String>,
    pub width: i32,
    pub height: i32,
    /// Size in bytes.
    pub size: i64,
    /// `hevc` or `h264`.
    pub codec: String,
}

/// What a stream holds.
pub struct VideoItemView {
    pub quality: Seq<char>,
    pub url: Seq<char>,
    pub backup_url: Option<Seq<char>>,
    pub width: i32,
    pub height: i32,
    pub size: i64,
    pub codec: Seq<char>,
}

impl View for VideoItem {
    type V = VideoItemView;

    open spec fn view(&self) -> VideoItemView {
        VideoItemView {
            quality: self.quality@,
            url: self.url@,
            backup_url: text_of(self.backup_url),
            width: self.width,
            height: self.height,
            size: self.size,
            codec: self.codec@,
        }
    }
}

impl Clone for VideoItem {
    fn clone(&self) -> (r: Self)
        ensures
            r@ == self@,
    {
        VideoItem {
            quality: self.quality.clone(),
            url: self.url.clone(),
            backup_url: clone_text(&self.backup_url),
            width: self.width,
            height: self.height,
            size: self.size,
            codec: self.codec.clone(),
        }
    }
}

/// The views of a list of streams.
pub open spec fn item_views(items: Seq<VideoItem>) -> Seq<VideoItemView> {
    items.map_values(|v: VideoItem| v@)
}

/// What a video note holds.
pub struct VideoDataView {
    pub note_id: Seq<char>,
    pub title: Seq<char>,
    pub author: Seq<char>,
    pub duration: i64,
    pub videos: Seq<VideoItemView>,
    pub cover: Option<Seq<char>>,
}

impl View for VideoData {
    type V = VideoDataView;

    open spec fn view(&self) -> VideoDataView {
        VideoDataView {
            note_id: self.note_id@,
            title: self.title@,
            author: self.author@,
            duration: self.duration,
            videos: item_views(self.videos@),
            cover: text_of(self.cover),
        }
    }
}

/// What an answer holds.
pub struct VideoResponseView {
    pub success: bool,
    pub msg: Option<Seq<char>>,
    pub data: Option<VideoDataView>,
}

impl View for VideoResponse {
    type V = VideoResponseView;

    open spec fn view(&self) -> VideoResponseView {
        VideoResponseView {
            success: self.success,
            msg: text_of(self.msg),
            data: match self.data {
                Some(d) => Some(d@),
                None => None,
            },
        }
    }
}

/// Why the note's details gave no answer.
#[derive(Debug, Clone, Copy, PartialEq, Eq, Structural)]
pub enum MediaError {
    /// The details are no JSON document.
    Unreadable,
    /// The details hold no note.
    NoNoteCard,
}

impl MediaError {
    /// The error in words.
    pub fn message(self) -> (r: String)
        ensures
            r@ == match self {
                MediaError::Unreadable => "The note's details are no JSON document"@,
                MediaError::NoNoteCard => "No note_card found in response"@,
            },
    {
        match self {
            MediaError::Unreadable => String::from_str("The note's details are no JSON document"),
            MediaError::NoNoteCard => String::from_str("No note_card found in response"),
        }
    }
}

/// The name of a resolution: `1080p` from 1080 lines on, `720p` from 720
/// lines on, `480p` below.
pub open spec fn resolution_name(height: i32) -> Seq<char> {
    if height >= 1080 {
        "1080p"@
    } else if height >= 720 {
        "720p"@
    } else {
        "480p"@
    }
}

/// The first backup address of a stream.
pub open spec fn first_backup(stream: serde_json::Value) -> Option<Seq<char>> {
    match items_at(stream, "backup_urls"@) {
        Some(urls) => if urls.len() > 0 {
            json_text(urls[0])
        } else {
            None
        },
        None => None,
    }
}

/// The stream that a JSON value describes. It has to name its address, its
/// width, its height and its size.
pub open spec fn stream_of(stream: serde_json::Value, codec: Seq<char>) -> Option<VideoItemView> {
    match text_at(stream, "master_url"@) {
        Some(url) => match integer_at(stream, "width"@) {
            Some(width) => match integer_at(stream, "height"@) {
                Some(height) => match integer_at(stream, "size"@) {
                    Some(size) => Some(
                        VideoItemView {
                            quality: codec + "_"@ + resolution_name(height as i32),
                            url,
                            backup_url: first_backup(stream),
                            width: width as i32,
                            height: height as i32,
                            size,
                            codec,
                        },
                    ),
                    None => None,
                },
                None => None,
            },
            None => None,
        },
        None => None,
    }
}

/// The streams that a list of JSON values describes, in order; a value that
/// describes none is skipped.
pub open spec fn streams_of(values: Seq<serde_json::Value>, codec: Seq<char>) -> Seq<VideoItemView>
    decreases values.len(),
{
    if values.len() == 0 {
        Seq::empty()
    } else {
        let before = streams_of(values.drop_last(), codec);
        match stream_of(values.last(), codec) {
            Some(item) => before.push(item),
            None => before,
        }
    }
}

/// The number of streams at the start of `sorted` that are no smaller than `size`.
pub open spec fn rank_of(sorted: Seq<VideoItemView>, size: i64) -> nat
    decreases sorted.len(),
{
    if sorted.len() == 0 {
        0
    } else if sorted[0].size < size {
        0
    } else {
        1 + rank_of(sorted.drop_first(), size)
    }
}

/// `sorted` with `item` inserted behind the streams that are no smaller.
pub open spec fn inserted(sorted: Seq<VideoItemView>, item: VideoItemView) -> Seq<VideoItemView> {
    sorted.insert(rank_of(sorted, item.size) as int, item)
}

/// The streams from the largest to the smallest; streams of one size keep their order.
pub open spec fn largest_first(items: Seq<VideoItemView>) -> Seq<VideoItemView>
    decreases items.len(),
{
    if items.len() == 0 {
        Seq::empty()
    } else {
        inserted(largest_first(items.drop_last()), items.last())
    }
}

/// No stream is followed by a larger one.
pub open spec fn descending(items: Seq<VideoItemView>) -> bool {
    forall|i: int, j: int| 0 <= i < j < items.len() ==> items[i].size >= items[j].size
}

/// The streams before the rank are no smaller than `size`, the one at the
/// rank, if there is one, is smaller.
pub proof fn lemma_rank_of(sorted: Seq<VideoItemView>, size: i64)
    ensures
        rank_of(sorted, size) <= sorted.len(),
        forall|i: int| 0 <= i < rank_of(sorted, size) ==> sorted[i].size >= size,
        rank_of(sorted, size) < sorted.len() ==> sorted[rank_of(sorted, size) as int].size < size,
    decreases sorted.len(),
{
    if sorted.len() > 0 && sorted[0].size >= size {
        let t = sorted.drop_first();
        lemma_rank_of(t, size);
        assert forall|i: int| 0 <= i < rank_of(sorted, size) implies sorted[i].size >= size by {
            if i > 0 {
                assert(sorted[i] == t[i - 1]);
            }
        }
        if rank_of(sorted, size) < sorted.len() {
            assert(sorted[rank_of(sorted, size) as int] == t[rank_of(t, size) as int]);
        }
    }
}

/// An index before which every stream is no smaller than `size` and at which
/// one is smaller, or which is the length, is the rank.
pub proof fn lemma_rank_of_is(sorted: Seq<VideoItemView>, size: i64, k: int)
    requires
        0 <= k <= sorted.len(),
        forall|i: int| 0 <= i < k ==> sorted[i].size >= size,
        k < sorted.len() ==> sorted[k].size < size,
    ensures
        rank_of(sorted, size) == k,
    decreases sorted.len(),
{
    if sorted.len() > 0 && sorted[0].size >= size {
        let t = sorted.drop_first();
        assert forall|i: int| 0 <= i < k - 1 implies t[i].size >= size by {
            assert(t[i] == sorted[i + 1]);
        }
        if k - 1 < t.len() {
            assert(t[k - 1] == sorted[k]);
        }
        lemma_rank_of_is(t, size, k - 1);
    }
}

/// Sorting gives the same streams, none followed by a larger one.
pub proof fn lemma_largest_first(items: Seq<VideoItemView>)
    ensures
        descending(largest_first(items)),
        largest_first(items).len() == items.len(),
        largest_first(items).to_multiset() == items.to_multiset(),
    decreases items.len(),
{
    if items.len() == 0 {
        assert(largest_first(items) =~= items);
    } else {
        let front = items.drop_last();
        let last = items.last();
        let sorted = largest_first(front);
        lemma_largest_first(front);
        lemma_rank_of(sorted, last.size);
        let k = rank_of(sorted, last.size) as int;
        let after = inserted(sorted, last);
        assert forall|i: int, j: int| 0 <= i < j < after.len() implies after[i].size
            >= after[j].size by {
            if j < k {
                assert(after[i] == sorted[i] && after[j] == sorted[j]);
            } else if j == k {
                assert(after[i] == sorted[i]);
            } else if i < k {
                assert(after[i] == sorted[i] && after[j] == sorted[j - 1]);
            } else if i == k {
                assert(after[j] == sorted[j - 1]);
                assert(sorted[k].size >= sorted[j - 1].size || j - 1 == k);
            } else {
                assert(after[i] == sorted[i - 1] && after[j] == sorted[j - 1]);
            }
        }
        vstd::seq_lib::to_multiset_insert(sorted, k, last);
        vstd::seq_lib::to_multiset_build(front, last);
        assert(items =~= front.push(last));
    }
}

/// The stream that the JSON value `stream` describes, if it describes one.
pub fn parse_video_stream(stream: &serde_json::Value, codec: &str) -> (r: Option<VideoItem>)
    ensures
        match r {
            Some(item) => stream_of(*stream, codec@) == Some(item@),
            None => stream_of(*stream, codec@) is None,
        },
{
    let url = match read_text(stream, "master_url") {
        Some(u) => u,
        None => {
            return None;
        },
    };
    let width = match read_integer(stream, "width") {
        Some(w) => w,
        None => {
            return None;
        },
    };
    let height = match read_integer(stream, "height") {
        Some(h) => h,
        None => {
            return None;
        },
    };
    let size = match read_integer(stream, "size") {
        Some(s) => s,
        None => {
            return None;
        },
    };
    let lines: i32 = #[verifier::truncate]
    (height as i32);
    let columns: i32 = #[verifier::truncate]
    (width as i32);
    let mut quality = followed_by(codec, "_");
    if lines >= 1080 {
        quality.append("1080p");
    } else if lines >= 720 {
        quality.append("720p");
    } else {
        quality.append("480p");
    }
    let backup_url = match read_items(stream, "backup_urls") {
        Some(urls) => if urls.len() > 0 {
            as_text(&urls[0])
        } else {
            None
        },
        None => None,
    };
    Some(
        VideoItem {
            quality,
            url,
            backup_url,
            width: columns,
            height: lines,
            size,
            codec: String::from_str(codec),
        },
    )
}

/// Adds to `videos` the streams that `values` describes.
pub fn collect_streams(videos: &mut Vec<VideoItem>, values: &Vec<serde_json::Value>, codec: &str)
    ensures
        item_views(final(videos)@) == item_views(old(videos)@) + streams_of(values@, codec@),
{
    let ghost start = item_views(videos@);
    let mut i: usize = 0;
    assert(values@.take(0) =~= Seq::<serde_json::Value>::empty());
    assert(start + streams_of(values@.take(0), codec@) =~= start);
    while i < values.len()
        invariant
            i <= values.len(),
            item_views(videos@) == start + streams_of(values@.take(i as int), codec@),
        decreases values.len() - i,
    {
        proof {
            assert(values@.take(i as int + 1).drop_last() =~= values@.take(i as int));
            assert(values@.take(i as int + 1).last() == values@[i as int]);
        }
        match parse_video_stream(&values[i], codec) {
            Some(item) => {
                let ghost before = videos@;
                videos.push(item);
                assert(item_views(videos@) =~= item_views(before).push(item@));
                assert(item_views(videos@) =~= start + streams_of(
                    values@.take(i as int + 1),
                    codec@,
                ));
            },
            None => {},
        }
        i += 1;
    }
    assert(values@.take(values.len() as int) =~= values@);
}

/// The streams from the largest to the smallest; streams of one size keep their order.
pub fn sort_largest_first(items: Vec<VideoItem>) -> (r: Vec<VideoItem>)
    ensures
        item_views(r@) == largest_first(item_views(items@)),
        descending(item_views(r@)),
        item_views(r@).to_multiset() == item_views(items@).to_multiset(),
{
    let ghost all = item_views(items@);
    let mut sorted: Vec<VideoItem> = Vec::new();
    let mut i: usize = 0;
    assert(all.take(0) =~= Seq::<VideoItemView>::empty());
    assert(item_views(sorted@) =~= Seq::<VideoItemView>::empty());
    while i < items.len()
        invariant
            i <= items.len(),
            all == item_views(items@),
            item_views(sorted@) == largest_first(all.take(i as int)),
        decreases items.len() - i,
    {
        let item = items[i].clone();
        let ghost before = sorted@;
        let mut k: usize = 0;
        while k < sorted.len() && sorted[k].size >= item.size
            invariant
                k <= sorted.len(),
                forall|j: int| 0 <= j < k ==> item_views(sorted@)[j].size >= item.size,
            decreases sorted.len() - k,
        {
            k += 1;
        }
        proof {
            lemma_rank_of_is(item_views(sorted@), item.size, k as int);
            assert(all.take(i as int + 1).drop_last() =~= all.take(i as int));
            assert(all.take(i as int + 1).last() == item@);
        }
        sorted.insert(k, item);
        assert(item_views(sorted@) =~= item_views(before).insert(k as int, item@));
        i += 1;
    }
    proof {
        assert(all.take(items.len() as int) =~= all);
        lemma_largest_first(all);
    }
    sorted
}

/// The title, the author, the length and the cover of a video note.
pub open spec fn note_title(card: serde_json::Value) -> Seq<char> {
    or_empty(text_at(card, "title"@))
}

/// The author of a note.
pub open spec fn note_author(card: serde_json::Value) -> Seq<char> {
    or_empty(text_by_pointer(card, "/user/nickname"@))
}

/// The length of a video in milliseconds: a thousand times its length in
/// seconds, held within the range of `i64`; 0 when the note gives no length.
pub open spec fn note_duration(card: serde_json::Value) -> i64 {
    match integer_by_pointer(card, "/video/capa/duration"@) {
        Some(seconds) => if seconds * 1000 > i64::MAX {
            i64::MAX
        } else if seconds * 1000 < i64::MIN {
            i64::MIN
        } else {
            (seconds * 1000) as i64
        },
        None => 0,
    }
}

/// The streams of a video note: those of the codec `h265`, named `hevc`, then
/// those of the codec `h264`, from the largest to the smallest.
pub open spec fn note_streams(card: serde_json::Value) -> Seq<VideoItemView> {
    let first = match items_by_pointer(card, "/video/media/stream/h265"@) {
        Some(values) => streams_of(values, "hevc"@),
        None => Seq::empty(),
    };
    let second = match items_by_pointer(card, "/video/media/stream/h264"@) {
        Some(values) => streams_of(values, "h264"@),
        None => Seq::empty(),
    };
    largest_first(first + second)
}

/// A failure with the given message.
pub open spec fn refusal(msg: Seq<char>) -> VideoResponseView {
    VideoResponseView { success: false, msg: Some(msg), data: None }
}

/// The answer for the details `doc` of the note `note_id`. Details that do
/// not report success give a failure with their message; details without a
/// note give an error; a note that is no video gives a failure.
pub open spec fn video_answer(note_id: Seq<char>, doc: serde_json::Value) -> Result<
    VideoResponseView,
    MediaError,
> {
    if flag_at(doc, "success"@) != Some(true) {
        Ok(
            refusal(
                match text_at(doc, "msg"@) {
                    Some(m) => m,
                    None => UNKNOWN_ERROR@,
                },
            ),
        )
    } else {
        match json_pointer(doc, "/data/items/0/note_card"@) {
            None => Err(MediaError::NoNoteCard),
            Some(card) => if or_empty(text_at(card, "type"@)) != "video"@ {
                Ok(refusal(NOT_A_VIDEO@))
            } else {
                Ok(
                    VideoResponseView {
                        success: true,
                        msg: None,
                        data: Some(
                            VideoDataView {
                                note_id,
                                title: note_title(card),
                                author: note_author(card),
                                duration: note_duration(card),
                                videos: note_streams(card),
                                cover: text_by_pointer(card, "/image_list/0/url_default"@),
                            },
                        ),
                    },
                )
            },
        }
    }
}

/// The view of an answer or an error.
pub open spec fn answer_view(r: Result<VideoResponse, MediaError>) -> Result<
    VideoResponseView,
    MediaError,
> {
    match r {
        Ok(a) => Ok(a@),
        Err(e) => Err(e),
    }
}

fn refuse(msg: String) -> (r: VideoResponse)
    ensures
        r@ == refusal(msg@),
{
    VideoResponse { success: false, msg: Some(msg), data: None }
}

/// The answer for the parsed details `doc` of the note that `req` names.
pub fn video_urls_of(req: VideoRequest, doc: &serde_json::Value) -> (r: Result<
    VideoResponse,
    MediaError,
>)
    ensures
        answer_view(r) == video_answer(req.note_id@, *doc),
{
    let succeeded = match read_flag(doc, "success") {
        Some(b) => b,
        None => false,
    };
    if !succeeded {
        let msg = match read_text(doc, "msg") {
            Some(m) => m,
            None => String::from_str(UNKNOWN_ERROR),
        };
        return Ok(refuse(msg));
    }
    let card = match pointer(doc, "/data/items/0/note_card") {
        Some(c) => c,
        None => {
            return Err(MediaError::NoNoteCard);
        },
    };
    let kind = text_or_empty(&read_text(card, "type"));
    if !same_text(kind.as_str(), "video") {
        return Ok(refuse(String::from_str(NOT_A_VIDEO)));
    }
    let title = text_or_empty(&read_text(card, "title"));
    let author = text_or_empty(&read_text_by_pointer(card, "/user/nickname"));
    let duration: i64 = match read_integer_by_pointer(card, "/video/capa/duration") {
        Some(seconds) => {
            let millis: i128 = (seconds as i128) * 1000;
            if millis > i64::MAX as i128 {
                i64::MAX
            } else if millis < i64::MIN as i128 {
                i64::MIN
            } else {
                millis as i64
            }
        },
        None => 0,
    };
    let cover = read_text_by_pointer(card, "/image_list/0/url_default");
    let mut videos: Vec<VideoItem> = Vec::new();
    assert(item_views(videos@) =~= Seq::<VideoItemView>::empty());
    match read_items_by_pointer(card, "/video/media/stream/h265") {
        Some(values) => {
            collect_streams(&mut videos, values, "hevc");
        },
        None => {},
    }
    let ghost first = item_views(videos@);
    match read_items_by_pointer(card, "/video/media/stream/h264") {
        Some(values) => {
            collect_streams(&mut videos, values, "h264");
        },
        None => {},
    }
    proof {
        let a = match items_by_pointer(*card, "/video/media/stream/h265"@) {
            Some(values) => streams_of(values, "hevc"@),
            None => Seq::empty(),
        };
        let b = match items_by_pointer(*card, "/video/media/stream/h264"@) {
            Some(values) => streams_of(values, "h264"@),
            None => Seq::empty(),
        };
        assert(first =~= a);
        assert(item_views(videos@) =~= a + b);
    }
    let videos = sort_largest_first(videos);
    Ok(
        VideoResponse {
            success: true,
            msg: None,
            data: Some(VideoData { note_id: req.note_id, title, author, duration, videos, cover }),
        },
    )
}

/// The download addresses of the video note that `req` names, read from the
/// text of the note's details.
pub fn get_video_urls(req: VideoRequest, text: &str) -> (r: Result<VideoResponse, MediaError>)
    ensures
        answer_view(r) == match json_parsed(text@) {
            Some(doc) => video_answer(req.note_id@, doc),
            None => Err(MediaError::Unreadable),
        },
{
    match parse(text) {
        Some(doc) => video_urls_of(req, &doc),
        None => Err(MediaError::Unreadable),
    }
}

} // verus!
