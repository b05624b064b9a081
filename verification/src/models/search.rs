//! Shapes of the search endpoints' requests and answers.

use crate::models::feed::recommend::{default_formats, default_image_formats, HomefeedItem};
use vstd::prelude::*;
use vstd::string::StringExecFns;

verus! {

/// The answer to a request for the trending queries.
#[derive(Debug, Clone)]
pub struct QueryTrendingResponse {
    pub code: i32,
    pub success: bool,
    pub msg: Option<String>,
    pub data: Option<QueryTrendingData>,
}

/// The trending queries.
#[derive(Debug, Clone)]
pub struct QueryTrendingData {
    pub word_request_id: String,
    pub title: String,
    pub queries: Vec<TrendingQuery>,
    pub hint_word: Option<TrendingHintWord>,
}

/// One trending query.
#[derive(Debug, Clone)]
pub struct TrendingQuery {
    pub title: String,
    pub desc: Option<String>,
    pub search_word: String,
    pub query_type: String,
    pub hint_word_request_id: Option<String>,
}

/// The query suggested in the empty search box.
#[derive(Debug, Clone)]
pub struct TrendingHintWord {
    pub hint_type: String,
    pub search_word: String,
    pub hint_word_request_id: String,
    pub title: String,
    pub desc: String,
}

/// The answer to a request for completions of a keyword.
#[derive(Debug, Clone)]
pub struct SearchRecommendResponse {
    pub code: i32,
    pub success: bool,
    pub msg: Option<String>,
    pub data: Option<SearchRecommendData>,
}

/// The completions of a keyword.
#[derive(Debug, Clone)]
pub struct SearchRecommendData {
    pub search_cpl_id: Option<String>,
    pub word_request_id: Option<String>,
    pub sug_items: Vec<SugItem>,
}

/// One completion.
#[derive(Debug, Clone)]
pub struct SugItem {
    pub item_type: String,
    pub text: String,
    pub search_type: Option<String>,
}

/// One filter of a search: its kind and the tags chosen for it.
#[derive(Debug, Clone)]
pub struct SearchFilterOption {
    pub tags: Vec<String>,
    pub filter_type: String,
}

/// What a search filter holds.
pub struct SearchFilterOptionView {
    pub tags: Seq<Seq<char>>,
    pub filter_type: Seq<char>,
}

impl View for SearchFilterOption {
    type V = SearchFilterOptionView;

    open spec fn view(&self) -> SearchFilterOptionView {
        SearchFilterOptionView {
            tags: self.tags@.map_values(|s: String| s@),
            filter_type: self.filter_type@,
        }
    }
}

/// The tag that leaves a filter open.
pub const ANY_TAG: &'static str = "\u{4e0d}\u{9650}";

/// A filter with one tag.
pub open spec fn single_filter(tag: Seq<char>, filter_type: Seq<char>) -> SearchFilterOptionView {
    SearchFilterOptionView { tags: seq![tag], filter_type }
}

/// The filters of a search that names none: the general order and every
/// other filter left open.
pub open spec fn default_filter_views() -> Seq<SearchFilterOptionView> {
    seq![
        single_filter("general"@, "sort_type"@),
        single_filter(ANY_TAG@, "filter_note_type"@),
        single_filter(ANY_TAG@, "filter_note_time"@),
        single_filter(ANY_TAG@, "filter_note_range"@),
        single_filter(ANY_TAG@, "filter_pos_distance"@),
    ]
}

fn one_filter(tag: &str, filter_type: &str) -> (r: SearchFilterOption)
    ensures
        r@ == single_filter(tag@, filter_type@),
{
    let mut tags: Vec<String> = Vec::new();
    tags.push(String::from_str(tag));
    assert(tags@.map_values(|s: String| s@) =~= seq![tag@]);
    SearchFilterOption { tags, filter_type: String::from_str(filter_type) }
}

/// The page that a search asks for when it names none.
pub fn default_page() -> (r: i32)
    ensures
        r == 1,
{
    1
}

/// The number of notes on a page of a search that names none.
pub fn default_page_size() -> (r: i32)
    ensures
        r == 20,
{
    20
}

/// The order of a search that names none.
pub fn default_sort() -> (r: String)
    ensures
        r@ == "general"@,
{
    String::from_str("general")
}

/// The filters of a search that names none.
pub fn default_filters() -> (r: Vec<SearchFilterOption>)
    ensures
        r@.map_values(|f: SearchFilterOption| f@) == default_filter_views(),
{
    let mut v: Vec<SearchFilterOption> = Vec::new();
    v.push(one_filter("general", "sort_type"));
    v.push(one_filter(ANY_TAG, "filter_note_type"));
    v.push(one_filter(ANY_TAG, "filter_note_time"));
    v.push(one_filter(ANY_TAG, "filter_note_range"));
    v.push(one_filter(ANY_TAG, "filter_pos_distance"));
    assert(v@.map_values(|f: SearchFilterOption| f@) =~= default_filter_views());
    v
}

/// The number of users on a page of a user search that names none.
pub fn default_page_size_15() -> (r: i32)
    ensures
        r == 15,
{
    15
}

/// The kind of a user search that names none.
pub fn default_biz_type_user() -> (r: String)
    ensures
        r@ == "web_search_user"@,
{
    String::from_str("web_search_user")
}

/// A search for notes.
#[derive(Debug, Clone)]
pub struct SearchNotesRequest {
    pub keyword: String,
    pub page: i32,
    pub page_size: i32,
    pub search_id: Option<String>,
    pub sort: String,
    /// 0 for all notes, 1 for notes with images, 2 for videos.
    pub note_type: i32,
    /// Further flags, handed on as they are; usually none.
    pub ext_flags: Vec<serde_json::Value>,
    pub filters: Vec<SearchFilterOption>,
    pub geo: String,
    pub image_formats: Vec<String>,
}

impl SearchNotesRequest {
    /// A search for `keyword` with every other field at its default.
    pub fn new(keyword: String) -> (r: Self)
        ensures
            r.keyword@ == keyword@,
            r.page == 1,
            r.page_size == 20,
            r.search_id is None,
            r.sort@ == "general"@,
            r.note_type == 0,
            r.ext_flags@.len() == 0,
            r.filters@.map_values(|f: SearchFilterOption| f@) == default_filter_views(),
            r.geo@ == Seq::<char>::empty(),
            r.image_formats@.map_values(|s: String| s@) == default_formats(),
    {
        SearchNotesRequest {
            keyword,
            page: default_page(),
            page_size: default_page_size(),
            search_id: None,
            sort: default_sort(),
            note_type: 0,
            ext_flags: Vec::new(),
            filters: default_filters(),
            geo: String::new(),
            image_formats: default_image_formats(),
        }
    }
}

/// The answer to a search for notes.
#[derive(Debug, Clone)]
pub struct SearchNotesResponse {
    pub code: i32,
    pub success: bool,
    pub msg: Option<String>,
    pub data: Option<SearchNotesData>,
}

/// One page of a search for notes.
#[derive(Debug, Clone)]
pub struct SearchNotesData {
    /// The id of the search, by which later requests refer to it.
    pub search_id: Option<String>,
    pub has_more: bool,
    pub items: Vec<HomefeedItem>,
}

/// A request for the summary box of a search.
#[derive(Debug, Clone)]
pub struct SearchOneboxRequest {
    pub keyword: String,
    pub search_id: String,
    pub biz_type: String,
    pub request_id: Option<String>,
}

/// The answer to a request for the summary box of a search. Its data has no
/// fixed shape and is handed on as it is.
#[derive(Debug, Clone)]
pub struct SearchOneboxResponse {
    pub code: i32,
    pub success: bool,
    pub msg: Option<String>,
    pub data: Option<serde_json::Value>,
}

/// The answer to a request for the filters of a search.
#[derive(Debug, Clone)]
pub struct SearchFilterResponse {
    pub code: i32,
    pub success: bool,
    pub msg: Option<String>,
    pub data: Option<SearchFilterData>,
}

/// The filters that a search offers.
#[derive(Debug, Clone)]
pub struct SearchFilterData {
    pub filters: Vec<FilterItem>,
}

/// One filter that a search offers.
#[derive(Debug, Clone)]
pub struct FilterItem {
    pub filter_type: String,
    pub name: String,
    pub id: String,
    pub filter_tags: Vec<FilterTag>,
}

/// One tag of a filter.
#[derive(Debug, Clone)]
pub struct FilterTag {
    pub id: String,
    pub name: String,
    pub show_type: Option<i32>,
}

/// The body of a search for users.
#[derive(Debug, Clone)]
pub struct SearchUserRequestBody {
    pub search_user_request: SearchUserRequest,
}

/// A search for users.
#[derive(Debug, Clone)]
pub struct SearchUserRequest {
    pub keyword: String,
    pub search_id: Option<String>,
    pub page: i32,
    pub page_size: i32,
    pub biz_type: String,
    pub request_id: Option<String>,
}

/// The answer to a search for users.
#[derive(Debug, Clone)]
pub struct SearchUserResponse {
    pub code: i32,
    pub success: bool,
    pub msg: Option<String>,
    pub data: Option<SearchUserData>,
}

/// One page of a search for users.
#[derive(Debug, Clone)]
pub struct SearchUserData {
    pub has_more: bool,
    pub users: Vec<SearchUserItem>,
}

/// One user found by a search.
#[derive(Debug, Clone)]
pub struct SearchUserItem {
    pub id: String,
    pub name: String,
    pub image: Option<String>,
    pub fan_count: Option<String>,
    pub note_count: Option<i32>,
    pub desc: Option<String>,
    pub red_id: Option<String>,
    pub link: Option<String>,
}

} // verus!
