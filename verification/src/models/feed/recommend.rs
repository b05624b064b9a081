//! Shapes of the home feed's request and answer.

use crate::text::{followed_by, has_prefix, same_text, starts_with, string_of, sub_chars, to_chars};
use vstd::prelude::*;
use vstd::string::StringExecFns;

verus! {

/// The category of the recommended feed.
pub const RECOMMEND_CATEGORY: &'static str = "homefeed_recommend";

/// The key of the endpoint of the recommended feed.
pub const RECOMMEND_ENDPOINT: &'static str = "home_feed_recommend";

/// What the keys of the feed endpoints begin with.
pub const FEED_ENDPOINT_PREFIX: &'static str = "home_feed_";

/// What a home feed request holds.
pub struct HomefeedRequestView {
    pub cursor_score: Seq<char>,
    pub num: i32,
    pub refresh_type: i32,
    pub note_index: i32,
    pub unread_begin_note_id: Seq<char>,
    pub unread_end_note_id: Seq<char>,
    pub unread_note_count: i32,
    pub category: Seq<char>,
    pub search_key: Seq<char>,
    pub need_num: i32,
    pub image_formats: Seq<Seq<char>>,
    pub need_filter_image: bool,
}

/// The body of a request for the home feed.
#[derive(Debug)]
pub struct HomefeedRequest {
    pub cursor_score: String,
    pub num: i32,
    pub refresh_type: i32,
    pub note_index: i32,
    pub unread_begin_note_id: String,
    pub unread_end_note_id: String,
    pub unread_note_count: i32,
    pub category: String,
    pub search_key: String,
    pub need_num: i32,
    pub image_formats: Vec<String>,
    pub need_filter_image: bool,
}

impl View for HomefeedRequest {
    type V = HomefeedRequestView;

    open spec fn view(&self) -> HomefeedRequestView {
        HomefeedRequestView {
            cursor_score: self.cursor_score@,
            num: self.num,
            refresh_type: self.refresh_type,
            note_index: self.note_index,
            unread_begin_note_id: self.unread_begin_note_id@,
            unread_end_note_id: self.unread_end_note_id@,
            unread_note_count: self.unread_note_count,
            category: self.category@,
            search_key: self.search_key@,
            need_num: self.need_num,
            image_formats: self.image_formats@.map_values(|s: String| s@),
            need_filter_image: self.need_filter_image,
        }
    }
}

/// The image formats that a request asks for when it names none.
pub open spec fn default_formats() -> Seq<Seq<char>> {
    seq!["jpg"@, "webp"@, "avif"@]
}

/// A feed request for `category` that asks for `num` notes from the index
/// `note_index` on and needs `need_num` of them; everything else is empty.
pub open spec fn feed_request(category: Seq<char>, num: i32, note_index: i32, need_num: i32) -> HomefeedRequestView {
    HomefeedRequestView {
        cursor_score: Seq::empty(),
        num,
        refresh_type: 1,
        note_index,
        unread_begin_note_id: Seq::empty(),
        unread_end_note_id: Seq::empty(),
        unread_note_count: 0,
        category,
        search_key: Seq::empty(),
        need_num,
        image_formats: default_formats(),
        need_filter_image: false,
    }
}

/// The number of notes that a request asks for when it names none.
pub fn default_num() -> (r: i32)
    ensures
        r == 47,
{
    47
}

/// The refresh type of a request that names none.
pub fn default_refresh_type() -> (r: i32)
    ensures
        r == 1,
{
    1
}

/// The category of a request that names none.
pub fn default_category() -> (r: String)
    ensures
        r@ == RECOMMEND_CATEGORY@,
{
    String::from_str(RECOMMEND_CATEGORY)
}

/// The number of notes that a request needs when it names none.
pub fn default_need_num() -> (r: i32)
    ensures
        r == 22,
{
    22
}

/// The image formats that a request asks for when it names none.
pub fn default_image_formats() -> (r: Vec<String>)
    ensures
        r@.map_values(|s: String| s@) == default_formats(),
{
    let mut v: Vec<String> = Vec::new();
    v.push(String::from_str("jpg"));
    v.push(String::from_str("webp"));
    v.push(String::from_str("avif"));
    assert(v@.map_values(|s: String| s@) =~= default_formats());
    v
}

fn make_feed_request(category: String, num: i32, note_index: i32, need_num: i32) -> (r:
    HomefeedRequest)
    ensures
        r@ == feed_request(category@, num, note_index, need_num),
{
    HomefeedRequest {
        cursor_score: String::new(),
        num,
        refresh_type: 1,
        note_index,
        unread_begin_note_id: String::new(),
        unread_end_note_id: String::new(),
        unread_note_count: 0,
        category,
        search_key: String::new(),
        need_num,
        image_formats: default_image_formats(),
        need_filter_image: false,
    }
}

impl Default for HomefeedRequest {
    /// The request that the platform's own page makes for the recommended feed.
    fn default() -> (r: Self)
        ensures
            r@ == feed_request(RECOMMEND_CATEGORY@, 47, 34, 22),
    {
        make_feed_request(default_category(), default_num(), 34, default_need_num())
    }
}

/// The feed category that an endpoint key stands for: `homefeed_recommend`
/// for the recommended feed and for every key that is no feed key,
/// `homefeed.<channel>_v3` for the key `home_feed_<channel>`.
pub open spec fn category_of_endpoint(key: Seq<char>) -> Seq<char> {
    if key == RECOMMEND_ENDPOINT@ {
        RECOMMEND_CATEGORY@
    } else if starts_with(key, FEED_ENDPOINT_PREFIX@) {
        "homefeed."@ + key.skip(FEED_ENDPOINT_PREFIX@.len() as int) + "_v3"@
    } else {
        RECOMMEND_CATEGORY@
    }
}

/// The body that is posted to a feed endpoint when the caller gives none:
/// the first twenty notes of the endpoint's category.
pub fn build_default_payload(endpoint_key: &str) -> (r: HomefeedRequest)
    ensures
        r@ == feed_request(category_of_endpoint(endpoint_key@), 20, 0, 18),
{
    let key = to_chars(endpoint_key);
    let prefix = to_chars(FEED_ENDPOINT_PREFIX);
    let category = if same_text(endpoint_key, RECOMMEND_ENDPOINT) {
        String::from_str(RECOMMEND_CATEGORY)
    } else if has_prefix(&key, &prefix) {
        let channel = sub_chars(&key, prefix.len(), key.len());
        assert(channel@ =~= endpoint_key@.skip(FEED_ENDPOINT_PREFIX@.len() as int));
        let mut out = followed_by("homefeed.", string_of(&channel).as_str());
        out.append("_v3");
        out
    } else {
        String::from_str(RECOMMEND_CATEGORY)
    };
    make_feed_request(category, 20, 0, 18)
}

/// The key of the endpoint that serves the feed of `category`:
/// `home_feed_recommend` for `recommend`, `home_feed_<category>` otherwise.
pub fn feed_endpoint_key(category: &str) -> (r: String)
    ensures
        r@ == if category@ == "recommend"@ {
            RECOMMEND_ENDPOINT@
        } else {
            FEED_ENDPOINT_PREFIX@ + category@
        },
{
    if same_text(category, "recommend") {
        String::from_str(RECOMMEND_ENDPOINT)
    } else {
        followed_by(FEED_ENDPOINT_PREFIX, category)
    }
}

/// The answer to a request for the home feed.
#[derive(Debug, Clone)]
pub struct HomefeedResponse {
    pub code: i32,
    pub success: bool,
    pub msg: Option<String>,
    pub data: Option<HomefeedData>,
}

/// One page of the feed.
#[derive(Debug, Clone)]
pub struct HomefeedData {
    /// Where the next page starts.
    pub cursor_score: Option<String>,
    pub items: Vec<HomefeedItem>,
}

/// One note of the feed.
#[derive(Debug, Clone)]
pub struct HomefeedItem {
    pub id: String,
    pub model_type: Option<String>,
    pub track_id: Option<String>,
    pub xsec_token: Option<String>,
    pub ignore: Option<bool>,
    pub note_card: Option<NoteCard>,
}

/// What the feed shows of a note.
#[derive(Debug, Clone)]
pub struct NoteCard {
    /// `normal` or `video`.
    pub note_type: Option<String>,
    pub display_title: Option<String>,
    pub user: Option<NoteUser>,
    pub cover: Option<NoteCover>,
    pub interact_info: Option<InteractInfo>,
    pub video: Option<NoteVideo>,
}

/// The author of a note.
#[derive(Debug, Clone)]
pub struct NoteUser {
    pub user_id: Option<String>,
    pub nickname: Option<String>,
    pub nick_name: Option<String>,
    pub avatar: Option<String>,
    pub xsec_token: Option<String>,
}

/// The cover of a note.
#[derive(Debug, Clone)]
pub struct NoteCover {
    pub width: Option<i32>,
    pub height: Option<i32>,
    pub url_pre: Option<String>,
    pub url_default: Option<String>,
    pub file_id: Option<String>,
    pub info_list: Vec<CoverImageInfo>,
}

/// One rendition of a cover.
#[derive(Debug, Clone)]
pub struct CoverImageInfo {
    /// `WB_PRV` or `WB_DFT`.
    pub image_scene: Option<String>,
    pub url: Option<String>,
}

/// How users have reacted to a note.
#[derive(Debug, Clone)]
pub struct InteractInfo {
    pub liked: Option<bool>,
    pub liked_count: Option<String>,
}

/// The video of a note.
#[derive(Debug, Clone)]
pub struct NoteVideo {
    pub capa: Option<VideoCapa>,
}

/// What is known of a video.
#[derive(Debug, Clone)]
pub struct VideoCapa {
    /// Length in seconds.
    pub duration: Option<i32>,
}

} // verus!
