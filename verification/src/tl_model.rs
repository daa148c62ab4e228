//! The parts of Telegram's data that the crawler reads, held as plain
//! values. Each type keeps the fields that the conversions read, under the
//! names Telegram gives them.

use vstd::prelude::*;

verus! {

/// A file location (`fileLocationToBeDeprecated`).
#[derive(Clone, Debug)]
pub struct TlFileLocation {
    pub volume_id: i64,
    pub local_id: i32,
}

/// One size of a photo (`PhotoSize`).
#[derive(Clone, Debug)]
pub enum TlPhotoSize {
    /// `photoSize`: a stored size.
    Size { size_type: String, location: TlFileLocation, w: i32, h: i32, size: i32 },
    /// Any other kind of size (empty, cached, stripped).
    Other,
}

/// A stored photo (`photo`).
#[derive(Clone, Debug)]
pub struct TlPhotoData {
    pub has_stickers: bool,
    pub id: i64,
    pub access_hash: i64,
    pub file_reference: Vec<u8>,
    pub date: i32,
    pub sizes: Vec<TlPhotoSize>,
    pub dc_id: i32,
}

/// A photo (`Photo`).
#[derive(Clone, Debug)]
pub enum TlPhoto {
    Empty,
    Photo(TlPhotoData),
}

/// An attribute of a document (`DocumentAttribute`).
#[derive(Clone, Debug)]
pub enum TlDocumentAttribute {
    ImageSize { w: i32, h: i32 },
    Animated,
    Sticker,
    Video { round_message: bool, supports_streaming: bool, duration: i32, w: i32, h: i32 },
    Audio {
        voice: bool,
        duration: i32,
        title: Option<String>,
        performer: Option<String>,
        waveform: Option<Vec<u8>>,
    },
    Filename { file_name: String },
    HasStickers,
}

/// A stored document (`document`).
#[derive(Clone, Debug)]
pub struct TlDocumentData {
    pub id: i64,
    pub access_hash: i64,
    pub file_reference: Vec<u8>,
    pub date: i32,
    pub mime_type: String,
    pub size: i32,
    pub thumbs: Option<Vec<TlPhotoSize>>,
    pub dc_id: i32,
    pub attributes: Vec<TlDocumentAttribute>,
}

/// A document (`Document`).
#[derive(Clone, Debug)]
pub enum TlDocument {
    Empty,
    Document(TlDocumentData),
}

/// A loaded web page preview (`webPage`).
#[derive(Clone, Debug)]
pub struct TlWebPageData {
    pub id: i64,
    pub url: String,
    pub display_url: String,
    pub hash: i32,
    pub page_type: Option<String>,
    pub site_name: Option<String>,
    pub title: Option<String>,
    pub description: Option<String>,
    pub photo: Option<TlPhoto>,
}

/// A web page preview (`WebPage`).
#[derive(Clone, Debug)]
pub enum TlWebPage {
    Empty,
    Pending,
    Page(TlWebPageData),
    NotModified,
}

/// The media of a message (`MessageMedia`).
#[derive(Clone, Debug)]
pub enum TlMessageMedia {
    Photo { photo: Option<TlPhoto>, ttl_seconds: Option<i32> },
    Document { document: Option<TlDocument>, ttl_seconds: Option<i32> },
    WebPage(TlWebPage),
    /// Geo points, contacts, venues, games, invoices, polls and the like.
    Other,
}

/// Where a forwarded message came from (`messageFwdHeader`).
#[derive(Clone, Debug)]
pub struct TlFwdHeader {
    pub from_id: Option<i32>,
    pub from_name: Option<String>,
    pub date: i32,
    pub channel_id: Option<i32>,
    pub channel_post: Option<i32>,
    pub post_author: Option<String>,
    pub saved_from_msg_id: Option<i32>,
}

/// A formatting entity of a message's text (`MessageEntity`).
#[derive(Clone, Debug)]
pub enum TlMessageEntity {
    /// `messageEntityTextUrl`: text that links to `url`.
    TextUrl { url: String },
    Other,
}

/// A button under a message (`KeyboardButton`).
#[derive(Clone, Debug)]
pub enum TlKeyboardButton {
    Url { text: String, url: String },
    UrlAuth,
    Other,
}

/// A row of buttons (`keyboardButtonRow`).
#[derive(Clone, Debug)]
pub struct TlKeyboardRow {
    pub buttons: Vec<TlKeyboardButton>,
}

/// The buttons under a message (`ReplyMarkup`).
#[derive(Clone, Debug)]
pub enum TlReplyMarkup {
    /// `replyInlineMarkup`.
    Inline { rows: Vec<TlKeyboardRow> },
    Other,
}

/// A message (`message`).
#[derive(Clone, Debug)]
pub struct TlMessageData {
    pub silent: bool,
    pub post: bool,
    pub id: i32,
    pub fwd_from: Option<TlFwdHeader>,
    pub via_bot_id: Option<i32>,
    pub reply_to_msg_id: Option<i32>,
    pub date: i32,
    pub message: String,
    pub media: Option<TlMessageMedia>,
    pub reply_markup: Option<TlReplyMarkup>,
    pub entities: Option<Vec<TlMessageEntity>>,
    pub views: Option<i32>,
    pub edit_date: Option<i32>,
    /// Whether the message carries restriction reasons.
    pub has_restriction_reason: bool,
}

/// A message of any kind (`Message`).
#[derive(Clone, Debug)]
pub enum TlMessage {
    Empty,
    Service,
    Message(TlMessageData),
}

/// A channel (`channel`).
#[derive(Clone, Debug)]
pub struct TlChannelData {
    pub id: i32,
    pub title: String,
    pub username: Option<String>,
    pub access_hash: Option<i64>,
    pub date: i32,
    pub version: i32,
    pub restricted: bool,
    pub megagroup: bool,
}

/// A chat of any kind (`Chat`).
#[derive(Clone, Debug)]
pub enum TlChat {
    Channel(TlChannelData),
    /// Groups, forbidden channels and the like.
    Other,
}

/// A history answer (`messages.Messages`).
#[derive(Clone, Debug)]
pub enum TlMessages {
    /// `messages.channelMessages`.
    ChannelMessages { messages: Vec<TlMessage>, chats: Vec<TlChat> },
    Other,
}

/// The full information of a channel (`channelFull`).
#[derive(Clone, Debug)]
pub struct TlChannelFullData {
    pub id: i32,
    pub participants_count: Option<i32>,
    pub read_inbox_max_id: i32,
    pub pts: i32,
}

/// The full information of a chat (`ChatFull`).
#[derive(Clone, Debug)]
pub enum TlChatFull {
    ChannelFull(TlChannelFullData),
    Other,
}

/// The answer to a full-channel request (`messages.chatFull`).
#[derive(Clone, Debug)]
pub struct TlMessagesChatFull {
    pub full_chat: TlChatFull,
    pub chats: Vec<TlChat>,
}

/// A part of a file (`upload.File`).
#[derive(Clone, Debug)]
pub enum TlUploadFile {
    File { bytes: Vec<u8> },
    CdnRedirect,
}

} // verus!
