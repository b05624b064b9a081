//! The download addresses of the images of a note, read from the note's details.

use crate::api::media::video::{MediaError, UNKNOWN_ERROR};
use crate::json::{
    flag_at, integer_at, items_at, json_parsed, json_pointer, parse, pointer, read_flag,
    read_integer, read_items, read_text, read_text_by_pointer, text_at, text_by_pointer,
};
use crate::text::{or_empty, same_text, text_of, text_or_empty};
use vstd::prelude::*;
use vstd::string::StringExecFns;

verus! {

/// The message for a note that is a video.
pub const IS_A_VIDEO: &'static str =
    "This note is a video, not an image note. Use /api/note/video instead.";

/// The message for a note without images.
pub const NO_IMAGES: &'static str = "No images found in this note";

/// The scene of the rendition without watermark.
pub const SCENE_ORIGINAL: &'static str = "WB_PRV";

/// The scene of the rendition with watermark.
pub const SCENE_WATERMARK: &'static str = "WB_DFT";

/// A request for the download addresses of the images of a note.
#[derive(Debug, Clone)]
pub struct ImagesRequest {
    pub note_id: String,
    /// The token that the feed or the search gave for the note.
    pub xsec_token: String,
}

/// The answer to such a request.
#[derive(Debug)]
pub struct ImagesResponse {
    pub success: bool,
    pub msg: Option<String>,
    pub data: Option<ImagesData>,
}

/// A note and its images.
#[derive(Debug)]
pub struct ImagesData {
    pub note_id: String,
    pub title: String,
    pub author: String,
    pub desc: Option<String>,
    pub image_count: usize,
    pub images: Vec<ImageItem>,
}

/// One image of a note.
#[derive(Debug)]
pub struct ImageItem {
    /// The image's place in the note, counted from 1.
    pub index: usize,
    pub width: i32,
    pub height: i32,
    /// The address of the rendition with watermark.
    pub url_watermark: String,
    /// The address of the rendition without watermark.
    pub url_original: String,
}

/// What an image holds.
pub struct ImageItemView {
    pub index: nat,
    pub width: i32,
    pub height: i32,
    pub url_watermark: Seq<char>,
    pub url_original: Seq<char>,
}

impl View for ImageItem {
    type V = ImageItemView;

    open spec fn view(&self) -> ImageItemView {
        ImageItemView {
            index: self.index as nat,
            width: self.width,
            height: self.height,
            url_watermark: self.url_watermark@,
            url_original: self.url_original@,
        }
    }
}

/// The views of a list of images.
pub open spec fn image_views(items: Seq<ImageItem>) -> Seq<ImageItemView> {
    items.map_values(|v: ImageItem| v@)
}

/// What a note with images holds.
pub struct ImagesDataView {
    pub note_id: Seq<char>,
    pub title: Seq<char>,
    pub author: Seq<char>,
    pub desc: Option<Seq<char>>,
    pub image_count: nat,
    pub images: Seq<ImageItemView>,
}

impl View for ImagesData {
    type V = ImagesDataView;

    open spec fn view(&self) -> ImagesDataView {
        ImagesDataView {
            note_id: self.note_id@,
            title: self.title@,
            author: self.author@,
            desc: text_of(self.desc),
            image_count: self.image_count as nat,
            images: image_views(self.images@),
        }
    }
}

/// What an answer holds.
pub struct ImagesResponseView {
    pub success: bool,
    pub msg: Option<Seq<char>>,
    pub data: Option<ImagesDataView>,
}

impl View for ImagesResponse {
    type V = ImagesResponseView;

    open spec fn view(&self) -> ImagesResponseView {
        ImagesResponseView {
            success: self.success,
            msg: text_of(self.msg),
            data: match self.data {
                Some(d) => Some(d@),
                None => None,
            },
        }
    }
}

/// Index of the first rendition of the scene `scene`, or `list.len()`.
pub open spec fn scene_index(list: Seq<serde_json::Value>, scene: Seq<char>) -> nat
    decreases list.len(),
{
    if list.len() == 0 {
        0
    } else if text_at(list[0], "image_scene"@) == Some(scene) {
        0
    } else {
        1 + scene_index(list.drop_first(), scene)
    }
}

/// The address of the first rendition of the scene `scene`.
pub open spec fn scene_url(list: Seq<serde_json::Value>, scene: Seq<char>) -> Option<Seq<char>> {
    let k = scene_index(list, scene) as int;
    if k < list.len() {
        text_at(list[k], "url"@)
    } else {
        None
    }
}

/// The address of an image: the text of its member `key` if that is not
/// empty, else the address of the rendition of the scene `scene`.
pub open spec fn image_url(img: serde_json::Value, key: Seq<char>, scene: Seq<char>) -> Option<
    Seq<char>,
> {
    let direct = text_at(img, key);
    if direct is Some && direct->0.len() > 0 {
        direct
    } else {
        match items_at(img, "info_list"@) {
            Some(list) => scene_url(list, scene),
            None => None,
        }
    }
}

/// The image that a JSON value describes. It has to name its width, its
/// height and both of its addresses.
pub open spec fn image_of(img: serde_json::Value, index: nat) -> Option<ImageItemView> {
    match integer_at(img, "width"@) {
        Some(width) => match integer_at(img, "height"@) {
            Some(height) => match image_url(img, "url_pre"@, SCENE_ORIGINAL@) {
                Some(url_original) => match image_url(img, "url_default"@, SCENE_WATERMARK@) {
                    Some(url_watermark) => Some(
                        ImageItemView {
                            index,
                            width: width as i32,
                            height: height as i32,
                            url_watermark,
                            url_original,
                        },
                    ),
                    None => None,
                },
                None => None,
            },
            None => None,
        },
        None => None,
    }
}

/// The images that a list of JSON values describes, each with its place in
/// the list, counted from 1; a value that describes none is skipped.
pub open spec fn images_of(values: Seq<serde_json::Value>) -> Seq<ImageItemView>
    decreases values.len(),
{
    if values.len() == 0 {
        Seq::empty()
    } else {
        let before = images_of(values.drop_last());
        match image_of(values.last(), values.len()) {
            Some(item) => before.push(item),
            None => before,
        }
    }
}

/// An index below which no rendition is of the scene and at which one is, or
/// which is the length, is the scene's index.
pub proof fn lemma_scene_index_is(list: Seq<serde_json::Value>, scene: Seq<char>, k: int)
    requires
        0 <= k <= list.len(),
        forall|i: int| 0 <= i < k ==> text_at(list[i], "image_scene"@) != Some(scene),
        k < list.len() ==> text_at(list[k], "image_scene"@) == Some(scene),
    ensures
        scene_index(list, scene) == k,
    decreases list.len(),
{
    if list.len() > 0 && text_at(list[0], "image_scene"@) != Some(scene) {
        let t = list.drop_first();
        assert forall|i: int| 0 <= i < k - 1 implies text_at(t[i], "image_scene"@) != Some(
            scene,
        ) by {
            assert(t[i] == list[i + 1]);
        }
        if k - 1 < t.len() {
            assert(t[k - 1] == list[k]);
        }
        lemma_scene_index_is(t, scene, k - 1);
    }
}

fn find_scene_url(list: &Vec<serde_json::Value>, scene: &str) -> (r: Option<String>)
    ensures
        text_of(r) == scene_url(list@, scene@),
{
    let mut i: usize = 0;
    while i < list.len()
        invariant
            i <= list.len(),
            forall|j: int| 0 <= j < i ==> text_at(list@[j], "image_scene"@) != Some(scene@),
        decreases list.len() - i,
    {
        let found = match read_text(&list[i], "image_scene") {
            Some(s) => same_text(s.as_str(), scene),
            None => false,
        };
        if found {
            proof {
                lemma_scene_index_is(list@, scene@, i as int);
            }
            return read_text(&list[i], "url");
        }
        i += 1;
    }
    proof {
        lemma_scene_index_is(list@, scene@, list.len() as int);
    }
    None
}

fn read_image_url(img: &serde_json::Value, key: &str, scene: &str) -> (r: Option<String>)
    ensures
        text_of(r) == image_url(*img, key@, scene@),
{
    match read_text(img, key) {
        Some(direct) => {
            if !direct.as_str().is_empty() {
                return Some(direct);
            }
        },
        None => {},
    }
    match read_items(img, "info_list") {
        Some(list) => find_scene_url(list, scene),
        None => None,
    }
}

/// The image that the JSON value `img` describes, if it describes one.
pub fn parse_image_item(img: &serde_json::Value, index: usize) -> (r: Option<ImageItem>)
    ensures
        match r {
            Some(item) => image_of(*img, index as nat) == Some(item@),
            None => image_of(*img, index as nat) is None,
        },
{
    let width = match read_integer(img, "width") {
        Some(w) => w,
        None => {
            return None;
        },
    };
    let height = match read_integer(img, "height") {
        Some(h) => h,
        None => {
            return None;
        },
    };
    let url_original = match read_image_url(img, "url_pre", SCENE_ORIGINAL) {
        Some(u) => u,
        None => {
            return None;
        },
    };
    let url_watermark = match read_image_url(img, "url_default", SCENE_WATERMARK) {
        Some(u) => u,
        None => {
            return None;
        },
    };
    let columns: i32 = #[verifier::truncate]
    (width as i32);
    let lines: i32 = #[verifier::truncate]
    (height as i32);
    Some(ImageItem { index, width: columns, height: lines, url_watermark, url_original })
}

/// The images that `values` describes.
pub fn collect_images(values: &Vec<serde_json::Value>) -> (r: Vec<ImageItem>)
    ensures
        image_views(r@) == images_of(values@),
{
    let mut images: Vec<ImageItem> = Vec::new();
    let mut i: usize = 0;
    assert(values@.take(0) =~= Seq::<serde_json::Value>::empty());
    assert(image_views(images@) =~= Seq::<ImageItemView>::empty());
    while i < values.len()
        invariant
            i <= values.len(),
            image_views(images@) == images_of(values@.take(i as int)),
        decreases values.len() - i,
    {
        proof {
            assert(values@.take(i as int + 1).drop_last() =~= values@.take(i as int));
            assert(values@.take(i as int + 1).last() == values@[i as int]);
        }
        match parse_image_item(&values[i], i + 1) {
            Some(item) => {
                let ghost before = images@;
                images.push(item);
                assert(image_views(images@) =~= image_views(before).push(item@));
            },
            None => {},
        }
        i += 1;
    }
    assert(values@.take(values.len() as int) =~= values@);
    images
}

/// A failure with the given message.
pub open spec fn refusal(msg: Seq<char>) -> ImagesResponseView {
    ImagesResponseView { success: false, msg: Some(msg), data: None }
}

/// The images of a note.
pub open spec fn note_images(card: serde_json::Value) -> Seq<ImageItemView> {
    match items_at(card, "image_list"@) {
        Some(values) => images_of(values),
        None => Seq::empty(),
    }
}

/// The answer for the details `doc` of the note `note_id`. Details that do
/// not report success give a failure with their message; details without a
/// note give an error; a video and a note without images give a failure.
pub open spec fn images_answer(note_id: Seq<char>, doc: serde_json::Value) -> Result<
    ImagesResponseView,
    MediaError,
> {
    if flag_at(doc, "success"@) != Some(true) {
        Ok(
            refusal(
                match text_at(doc, "msg"@) {
                    Some(m) => m,
                    None => UNKNOWN_ERROR@,
                },
            ),
        )
    } else {
        match json_pointer(doc, "/data/items/0/note_card"@) {
            None => Err(MediaError::NoNoteCard),
            Some(card) => if or_empty(text_at(card, "type"@)) == "video"@ {
                Ok(refusal(IS_A_VIDEO@))
            } else if note_images(card).len() == 0 {
                Ok(refusal(NO_IMAGES@))
            } else {
                Ok(
                    ImagesResponseView {
                        success: true,
                        msg: None,
                        data: Some(
                            ImagesDataView {
                                note_id,
                                title: or_empty(text_at(card, "title"@)),
                                author: or_empty(text_by_pointer(card, "/user/nickname"@)),
                                desc: text_at(card, "desc"@),
                                image_count: note_images(card).len(),
                                images: note_images(card),
                            },
                        ),
                    },
                )
            },
        }
    }
}

/// The view of an answer or an error.
pub open spec fn answer_view(r: Result<ImagesResponse, MediaError>) -> Result<
    ImagesResponseView,
    MediaError,
> {
    match r {
        Ok(a) => Ok(a@),
        Err(e) => Err(e),
    }
}

fn refuse(msg: String) -> (r: ImagesResponse)
    ensures
        r@ == refusal(msg@),
{
    ImagesResponse { success: false, msg: Some(msg), data: None }
}

/// The answer for the parsed details `doc` of the note that `req` names.
pub fn image_urls_of(req: ImagesRequest, doc: &serde_json::Value) -> (r: Result<
    ImagesResponse,
    MediaError,
>)
    ensures
        answer_view(r) == images_answer(req.note_id@, *doc),
{
    let succeeded = match read_flag(doc, "success") {
        Some(b) => b,
        None => false,
    };
    if !succeeded {
        let msg = match read_text(doc, "msg") {
            Some(m) => m,
            None => String::from_str(UNKNOWN_ERROR),
        };
        return Ok(refuse(msg));
    }
    let card = match pointer(doc, "/data/items/0/note_card") {
        Some(c) => c,
        None => {
            return Err(MediaError::NoNoteCard);
        },
    };
    let kind = text_or_empty(&read_text(card, "type"));
    if same_text(kind.as_str(), "video") {
        return Ok(refuse(String::from_str(IS_A_VIDEO)));
    }
    let title = text_or_empty(&read_text(card, "title"));
    let author = text_or_empty(&read_text_by_pointer(card, "/user/nickname"));
    let desc = read_text(card, "desc");
    let images = match read_items(card, "image_list") {
        Some(values) => collect_images(values),
        None => {
            let none: Vec<ImageItem> = Vec::new();
            assert(image_views(none@) =~= Seq::<ImageItemView>::empty());
            none
        },
    };
    if images.len() == 0 {
        return Ok(refuse(String::from_str(NO_IMAGES)));
    }
    Ok(
        ImagesResponse {
            success: true,
            msg: None,
            data: Some(
                ImagesData {
                    note_id: req.note_id,
                    title,
                    author,
                    desc,
                    image_count: images.len(),
                    images,
                },
            ),
        },
    )
}

/// The download addresses of the images of the note that `req` names, read
/// from the text of the note's details.
pub fn get_image_urls(req: ImagesRequest, text: &str) -> (r: Result<ImagesResponse, MediaError>)
    ensures
        answer_view(r) == match json_parsed(text@) {
            Some(doc) => images_answer(req.note_id@, doc),
            None => Err(MediaError::Unreadable),
        },
{
    match parse(text) {
        Some(doc) => image_urls_of(req, &doc),
        None => Err(MediaError::Unreadable),
    }
}

} // verus!
