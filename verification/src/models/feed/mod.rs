pub mod recommend;

pub use recommend::CoverImageInfo;
pub use recommend::HomefeedData;
pub use recommend::HomefeedItem;
pub use recommend::HomefeedRequest;
pub use recommend::HomefeedResponse;
pub use recommend::InteractInfo;
pub use recommend::NoteCard;
pub use recommend::NoteCover;
pub use recommend::NoteUser;
pub use recommend::NoteVideo;
pub use recommend::VideoCapa;
