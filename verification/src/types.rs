//! The crawler's records: messages, media, web pages, channels and the
//! requests and responses exchanged between its workers.

use vstd::prelude::*;
use std::collections::HashMap;

verus! {

/// The reply a message answers (kept empty).
#[derive(Clone, Debug)]
pub struct MsgReplayTo {}

/// Where a forwarded message came from.
#[derive(Clone, Debug)]
pub struct MsgForwarded {
    pub from_id: i32,
    pub from_name: String,
    pub date: i32,
    pub channel_id: i32,
    pub channel_post: i32,
    pub post_author: String,
    pub saved_from_msg_id: i32,
}

/// The kind of a piece of media.
#[derive(Clone, Copy, Debug, PartialEq, Eq, Structural)]
pub enum MediaType {
    Unknown,
    Image,
    Video,
    Audio,
    File,
    ImageFile,
}

/// A photo, document, video or audio attached to a message.
#[derive(Debug)]
pub struct Media {
    pub media_type: MediaType,
    pub has_stickers: bool,
    pub id: i64,
    pub access_hash: i64,
    pub file_reference: Vec<u8>,
    pub date: i32,
    pub dc_id: i32,
    pub photo_size_type: String,
    pub dep_volume_id: i64,
    pub dep_local_id: i32,
    pub w: i32,
    pub h: i32,
    pub size: i32,
    pub mime_type: String,
    pub animated: bool,
    pub round_message: bool,
    pub supports_streaming: bool,
    pub duration: i32,
    pub video_thumbs_rec: Box<Option<Media>>,
    pub video_thumbs: Option<MediaThumb>,
    pub voice: bool,
    pub title: String,
    pub performer: String,
    pub waveform: Vec<u8>,
    pub file_name: String,
    pub has_sticker: bool,
    pub ttl_seconds: i32,
    pub file_extention: String,
}

/// The largest thumbnail of a video.
#[derive(Clone, Debug)]
pub struct MediaThumb {
    pub size_type: String,
    pub dep_volume_id: i64,
    pub dep_local_id: i32,
    pub w: i32,
    pub h: i32,
    pub size: i32,
}

/// A link button under a message, with the index of its row.
#[derive(Clone, Debug, Default)]
pub struct MarkupUrl {
    pub row_id: i64,
    pub text: String,
    pub url: String,
}

/// The preview of a web page linked from a message.
#[derive(Clone, Debug, Default)]
pub struct WebPage {
    pub id: i64,
    pub url: String,
    pub display_url: String,
    pub hash: i32,
    pub page_type: String,
    pub site_name: String,
    pub title: String,
    pub description: String,
    pub photo: Option<Media>,
}

/// A message of a channel.
#[derive(Clone, Debug)]
pub struct Msg {
    pub silent: bool,
    pub post: bool,
    pub id: i32,
    pub from_id: i32,
    pub via_bot_id: i32,
    pub reply_to_msg_id: i32,
    pub date: i32,
    pub message: String,
    pub views: i32,
    pub edit_date: i32,
    pub restricted: bool,
    pub forward: Option<MsgForwarded>,
    pub replay: Option<MsgReplayTo>,
    pub media: Option<Media>,
    pub webpage: Option<WebPage>,
    pub markup_urls: Option<Vec<MarkupUrl>>,
}

/// A channel with the messages crawled from it, by message id.
#[derive(Clone, Debug)]
pub struct ChannelSpace {
    pub info: ChannelInfo,
    pub msgs: HashMap<u32, Msg>,
}

/// What is known of a channel.
#[derive(Clone, Debug)]
pub struct ChannelInfo {
    pub id: i32,
    pub title: String,
    pub username: String,
    pub about: String,
    pub link: String,
    pub members_count: i32,
    pub read_inbox_max_id: i32,
    pub access_hash: i64,
    pub date: i32,
    pub photo: u8,
    pub version: i32,
    pub pts: i32,
    pub restricted: bool,
    pub megagroup: bool,
    pub full_data: bool,
}

/// The channel a username resolves to.
#[derive(Clone, Debug, Default)]
pub struct ChannelByUsernameResult {
    pub id: i32,
    pub title: String,
    pub username: String,
    pub access_hash: i64,
    pub date: i32,
    pub photo: u8,
    pub version: i32,
    pub restricted: bool,
    pub megagroup: bool,
}

/// A data center (kept empty).
#[derive(Clone, Debug)]
pub struct DC {}

/// A login session (kept empty).
#[derive(Clone, Debug)]
pub struct Session {}

/// A phone to log in with (kept empty).
#[derive(Clone, Debug)]
pub struct LoginPhone {}

/// The crawler's state.
pub struct App {
    pub login: Vec<LoginPhone>,
    pub channels: HashMap<i64, ChannelSpace>,
    pub sessions: Vec<Session>,
    pub dcs: Vec<DC>,
}

/// What was learned of a username, as it is cached.
#[derive(Clone, Debug)]
pub struct CachedUsernameData {
    pub username: String,
    pub channel_id: i32,
    pub channel_info: Option<ChannelInfo>,
    pub taken: bool,
    pub last_checked: u32,
}

/// Asks for a channel's information.
#[derive(Clone, Debug)]
pub struct ReqSyncChannel {
    pub channel_id: i32,
}

/// Answers a `ReqSyncChannel`.
#[derive(Clone, Debug)]
pub struct ResSyncChannel {
    pub channel_info: ChannelInfo,
}

/// Asks for a channel's messages from a message id on.
#[derive(Clone, Debug)]
pub struct ReqSyncMessages {
    pub channel_id: i32,
    pub access_id: i64,
    pub from_message_id: i64,
}

/// Answers a `ReqSyncMessages`.
#[derive(Clone, Debug)]
pub struct ResSyncMessages {
    pub req: ReqSyncMessages,
    pub messages: Vec<Msg>,
}

/// Asks to resolve a username.
#[derive(Clone, Debug)]
pub struct ReqResolveUsername {
    pub username: String,
}

/// Answers a `ReqResolveUsername`.
#[derive(Clone, Debug)]
pub struct ResResolveUsername {
    pub channel_id: i32,
    pub access_id: i64,
}

// ------------------------------------------------------------ views

/// The value of a `MsgForwarded`.
pub ghost struct MsgForwardedView {
    pub from_id: i32,
    pub from_name: Seq<char>,
    pub date: i32,
    pub channel_id: i32,
    pub channel_post: i32,
    pub post_author: Seq<char>,
    pub saved_from_msg_id: i32,
}

impl View for MsgForwarded {
    type V = MsgForwardedView;

    open spec fn view(&self) -> MsgForwardedView {
        MsgForwardedView {
            from_id: self.from_id,
            from_name: self.from_name@,
            date: self.date,
            channel_id: self.channel_id,
            channel_post: self.channel_post,
            post_author: self.post_author@,
            saved_from_msg_id: self.saved_from_msg_id,
        }
    }
}

/// The value of a `MediaThumb`.
pub ghost struct MediaThumbView {
    pub size_type: Seq<char>,
    pub dep_volume_id: i64,
    pub dep_local_id: i32,
    pub w: i32,
    pub h: i32,
    pub size: i32,
}

impl View for MediaThumb {
    type V = MediaThumbView;

    open spec fn view(&self) -> MediaThumbView {
        MediaThumbView {
            size_type: self.size_type@,
            dep_volume_id: self.dep_volume_id,
            dep_local_id: self.dep_local_id,
            w: self.w,
            h: self.h,
            size: self.size,
        }
    }
}

/// The value of a `Media`.
pub ghost struct MediaView {
    pub media_type: MediaType,
    pub has_stickers: bool,
    pub id: i64,
    pub access_hash: i64,
    pub file_reference: Seq<u8>,
    pub date: i32,
    pub dc_id: i32,
    pub photo_size_type: Seq<char>,
    pub dep_volume_id: i64,
    pub dep_local_id: i32,
    pub w: i32,
    pub h: i32,
    pub size: i32,
    pub mime_type: Seq<char>,
    pub animated: bool,
    pub round_message: bool,
    pub supports_streaming: bool,
    pub duration: i32,
    pub video_thumbs_rec: Option<Box<MediaView>>,
    pub video_thumbs: Option<MediaThumbView>,
    pub voice: bool,
    pub title: Seq<char>,
    pub performer: Seq<char>,
    pub waveform: Seq<u8>,
    pub file_name: Seq<char>,
    pub has_sticker: bool,
    pub ttl_seconds: i32,
    pub file_extention: Seq<char>,
}

/// The value of an optional thumbnail.
pub open spec fn thumb_opt_view(t: Option<MediaThumb>) -> Option<MediaThumbView> {
    match t {
        Some(t) => Some(t@),
        None => None,
    }
}

/// The value of a `Media`.
pub open spec fn media_view(m: Media) -> MediaView
    decreases m,
{
    MediaView {
        media_type: m.media_type,
        has_stickers: m.has_stickers,
        id: m.id,
        access_hash: m.access_hash,
        file_reference: m.file_reference@,
        date: m.date,
        dc_id: m.dc_id,
        photo_size_type: m.photo_size_type@,
        dep_volume_id: m.dep_volume_id,
        dep_local_id: m.dep_local_id,
        w: m.w,
        h: m.h,
        size: m.size,
        mime_type: m.mime_type@,
        animated: m.animated,
        round_message: m.round_message,
        supports_streaming: m.supports_streaming,
        duration: m.duration,
        video_thumbs_rec: match *m.video_thumbs_rec {
            Some(inner) => Some(Box::new(media_view(inner))),
            None => None,
        },
        video_thumbs: thumb_opt_view(m.video_thumbs),
        voice: m.voice,
        title: m.title@,
        performer: m.performer@,
        waveform: m.waveform@,
        file_name: m.file_name@,
        has_sticker: m.has_sticker,
        ttl_seconds: m.ttl_seconds,
        file_extention: m.file_extention@,
    }
}

impl View for Media {
    type V = MediaView;

    open spec fn view(&self) -> MediaView {
        media_view(*self)
    }
}

/// A copy of `v`.
pub fn copy_bytes(v: &Vec<u8>) -> (r: Vec<u8>)
    ensures
        r@ == v@,
{
    let mut r: Vec<u8> = Vec::new();
    for i in 0..v.len()
        invariant
            r@ == v@.take(i as int),
    {
        r.push(v[i]);
        assert(v@.take(i + 1) =~= v@.take(i as int).push(v@[i as int]));
    }
    assert(v@.take(v@.len() as int) =~= v@);
    r
}

/// A copy of `t`.
pub fn copy_thumb(t: &MediaThumb) -> (r: MediaThumb)
    ensures
        r@ == t@,
{
    MediaThumb {
        size_type: t.size_type.clone(),
        dep_volume_id: t.dep_volume_id,
        dep_local_id: t.dep_local_id,
        w: t.w,
        h: t.h,
        size: t.size,
    }
}

/// A copy of `m`, nested thumbnail media included.
pub fn copy_media(m: &Media) -> (r: Media)
    ensures
        r@ == m@,
    decreases m,
{
    let rec: Option<Media> = match &*m.video_thumbs_rec {
        Some(inner) => Some(copy_media(inner)),
        None => None,
    };
    let thumbs: Option<MediaThumb> = match &m.video_thumbs {
        Some(t) => Some(copy_thumb(t)),
        None => None,
    };
    Media {
        media_type: m.media_type,
        has_stickers: m.has_stickers,
        id: m.id,
        access_hash: m.access_hash,
        file_reference: copy_bytes(&m.file_reference),
        date: m.date,
        dc_id: m.dc_id,
        photo_size_type: m.photo_size_type.clone(),
        dep_volume_id: m.dep_volume_id,
        dep_local_id: m.dep_local_id,
        w: m.w,
        h: m.h,
        size: m.size,
        mime_type: m.mime_type.clone(),
        animated: m.animated,
        round_message: m.round_message,
        supports_streaming: m.supports_streaming,
        duration: m.duration,
        video_thumbs_rec: Box::new(rec),
        video_thumbs: thumbs,
        voice: m.voice,
        title: m.title.clone(),
        performer: m.performer.clone(),
        waveform: copy_bytes(&m.waveform),
        file_name: m.file_name.clone(),
        has_sticker: m.has_sticker,
        ttl_seconds: m.ttl_seconds,
        file_extention: m.file_extention.clone(),
    }
}

impl Clone for Media {
    fn clone(&self) -> (r: Self)
        ensures
            r@ == self@,
    {
        copy_media(self)
    }
}

/// The value of an optional media.
pub open spec fn media_opt_view(m: Option<Media>) -> Option<MediaView> {
    match m {
        Some(m) => Some(m@),
        None => None,
    }
}

/// The value of a `MarkupUrl`.
pub ghost struct MarkupUrlView {
    pub row_id: i64,
    pub text: Seq<char>,
    pub url: Seq<char>,
}

impl View for MarkupUrl {
    type V = MarkupUrlView;

    open spec fn view(&self) -> MarkupUrlView {
        MarkupUrlView { row_id: self.row_id, text: self.text@, url: self.url@ }
    }
}

/// The values of a sequence of link buttons.
pub open spec fn markup_views(s: Seq<MarkupUrl>) -> Seq<MarkupUrlView> {
    s.map_values(|u: MarkupUrl| u@)
}

/// The value of a `WebPage`.
pub ghost struct WebPageView {
    pub id: i64,
    pub url: Seq<char>,
    pub display_url: Seq<char>,
    pub hash: i32,
    pub page_type: Seq<char>,
    pub site_name: Seq<char>,
    pub title: Seq<char>,
    pub description: Seq<char>,
    pub photo: Option<MediaView>,
}

impl View for WebPage {
    type V = WebPageView;

    open spec fn view(&self) -> WebPageView {
        WebPageView {
            id: self.id,
            url: self.url@,
            display_url: self.display_url@,
            hash: self.hash,
            page_type: self.page_type@,
            site_name: self.site_name@,
            title: self.title@,
            description: self.description@,
            photo: media_opt_view(self.photo),
        }
    }
}

/// The value of a `Msg`.
pub ghost struct MsgView {
    pub silent: bool,
    pub post: bool,
    pub id: i32,
    pub from_id: i32,
    pub via_bot_id: i32,
    pub reply_to_msg_id: i32,
    pub date: i32,
    pub message: Seq<char>,
    pub views: i32,
    pub edit_date: i32,
    pub restricted: bool,
    pub forward: Option<MsgForwardedView>,
    pub has_replay: bool,
    pub media: Option<MediaView>,
    pub webpage: Option<WebPageView>,
    pub markup_urls: Option<Seq<MarkupUrlView>>,
}

impl View for Msg {
    type V = MsgView;

    open spec fn view(&self) -> MsgView {
        MsgView {
            silent: self.silent,
            post: self.post,
            id: self.id,
            from_id: self.from_id,
            via_bot_id: self.via_bot_id,
            reply_to_msg_id: self.reply_to_msg_id,
            date: self.date,
            message: self.message@,
            views: self.views,
            edit_date: self.edit_date,
            restricted: self.restricted,
            forward: match self.forward {
                Some(f) => Some(f@),
                None => None,
            },
            has_replay: self.replay is Some,
            media: media_opt_view(self.media),
            webpage: match self.webpage {
                Some(w) => Some(w@),
                None => None,
            },
            markup_urls: match self.markup_urls {
                Some(v) => Some(markup_views(v@)),
                None => None,
            },
        }
    }
}

/// The values of a sequence of messages.
pub open spec fn msg_views(s: Seq<Msg>) -> Seq<MsgView> {
    s.map_values(|m: Msg| m@)
}

/// The value of a `ChannelInfo`.
pub ghost struct ChannelInfoView {
    pub id: i32,
    pub title: Seq<char>,
    pub username: Seq<char>,
    pub about: Seq<char>,
    pub link: Seq<char>,
    pub members_count: i32,
    pub read_inbox_max_id: i32,
    pub access_hash: i64,
    pub date: i32,
    pub photo: u8,
    pub version: i32,
    pub pts: i32,
    pub restricted: bool,
    pub megagroup: bool,
    pub full_data: bool,
}

impl View for ChannelInfo {
    type V = ChannelInfoView;

    open spec fn view(&self) -> ChannelInfoView {
        ChannelInfoView {
            id: self.id,
            title: self.title@,
            username: self.username@,
            about: self.about@,
            link: self.link@,
            members_count: self.members_count,
            read_inbox_max_id: self.read_inbox_max_id,
            access_hash: self.access_hash,
            date: self.date,
            photo: self.photo,
            version: self.version,
            pts: self.pts,
            restricted: self.restricted,
            megagroup: self.megagroup,
            full_data: self.full_data,
        }
    }
}

/// The values of a sequence of channels.
pub open spec fn channel_views(s: Seq<ChannelInfo>) -> Seq<ChannelInfoView> {
    s.map_values(|c: ChannelInfo| c@)
}

/// The value of a `ChannelByUsernameResult`.
pub ghost struct ChannelByUsernameView {
    pub id: i32,
    pub title: Seq<char>,
    pub username: Seq<char>,
    pub access_hash: i64,
    pub date: i32,
    pub photo: u8,
    pub version: i32,
    pub restricted: bool,
    pub megagroup: bool,
}

impl View for ChannelByUsernameResult {
    type V = ChannelByUsernameView;

    open spec fn view(&self) -> ChannelByUsernameView {
        ChannelByUsernameView {
            id: self.id,
            title: self.title@,
            username: self.username@,
            access_hash: self.access_hash,
            date: self.date,
            photo: self.photo,
            version: self.version,
            restricted: self.restricted,
            megagroup: self.megagroup,
        }
    }
}

/// The value of a `CachedUsernameData`.
pub ghost struct CachedUsernameView {
    pub username: Seq<char>,
    pub channel_id: i32,
    pub channel_info: Option<ChannelInfoView>,
    pub taken: bool,
    pub last_checked: u32,
}

impl View for CachedUsernameData {
    type V = CachedUsernameView;

    open spec fn view(&self) -> CachedUsernameView {
        CachedUsernameView {
            username: self.username@,
            channel_id: self.channel_id,
            channel_info: match self.channel_info {
                Some(c) => Some(c@),
                None => None,
            },
            taken: self.taken,
            last_checked: self.last_checked,
        }
    }
}

// --------------------------------------------------------- defaults

/// The value of `Media::default()`.
pub open spec fn default_media_view() -> MediaView {
    MediaView {
        media_type: MediaType::Unknown,
        has_stickers: false,
        id: 0,
        access_hash: 0,
        file_reference: Seq::empty(),
        date: 0,
        dc_id: 0,
        photo_size_type: Seq::empty(),
        dep_volume_id: 0,
        dep_local_id: 0,
        w: 0,
        h: 0,
        size: 0,
        mime_type: Seq::empty(),
        animated: false,
        round_message: false,
        supports_streaming: false,
        duration: 0,
        video_thumbs_rec: None,
        video_thumbs: None,
        voice: false,
        title: Seq::empty(),
        performer: Seq::empty(),
        waveform: Seq::empty(),
        file_name: Seq::empty(),
        has_sticker: false,
        ttl_seconds: 0,
        file_extention: Seq::empty(),
    }
}

impl Default for MediaType {
    fn default() -> (r: Self)
        ensures
            r == MediaType::Unknown,
    {
        MediaType::Unknown
    }
}

impl Default for Media {
    fn default() -> (r: Self)
        ensures
            r@ == default_media_view(),
    {
        Media {
            media_type: MediaType::Unknown,
            has_stickers: false,
            id: 0,
            access_hash: 0,
            file_reference: Vec::new(),
            date: 0,
            dc_id: 0,
            photo_size_type: String::new(),
            dep_volume_id: 0,
            dep_local_id: 0,
            w: 0,
            h: 0,
            size: 0,
            mime_type: String::new(),
            animated: false,
            round_message: false,
            supports_streaming: false,
            duration: 0,
            video_thumbs_rec: Box::new(None),
            video_thumbs: None,
            voice: false,
            title: String::new(),
            performer: String::new(),
            waveform: Vec::new(),
            file_name: String::new(),
            has_sticker: false,
            ttl_seconds: 0,
            file_extention: String::new(),
        }
    }
}

/// The value of `MediaThumb::default()`.
pub open spec fn default_thumb_view() -> MediaThumbView {
    MediaThumbView {
        size_type: Seq::empty(),
        dep_volume_id: 0,
        dep_local_id: 0,
        w: 0,
        h: 0,
        size: 0,
    }
}

impl Default for MediaThumb {
    fn default() -> (r: Self)
        ensures
            r@ == default_thumb_view(),
    {
        MediaThumb {
            size_type: String::new(),
            dep_volume_id: 0,
            dep_local_id: 0,
            w: 0,
            h: 0,
            size: 0,
        }
    }
}

/// The value of `ChannelInfo::default()`.
pub open spec fn default_channel_info_view() -> ChannelInfoView {
    ChannelInfoView {
        id: 0,
        title: Seq::empty(),
        username: Seq::empty(),
        about: Seq::empty(),
        link: Seq::empty(),
        members_count: 0,
        read_inbox_max_id: 0,
        access_hash: 0,
        date: 0,
        photo: 0,
        version: 0,
        pts: 0,
        restricted: false,
        megagroup: false,
        full_data: false,
    }
}

impl Default for ChannelInfo {
    fn default() -> (r: Self)
        ensures
            r@ == default_channel_info_view(),
    {
        ChannelInfo {
            id: 0,
            title: String::new(),
            username: String::new(),
            about: String::new(),
            link: String::new(),
            members_count: 0,
            read_inbox_max_id: 0,
            access_hash: 0,
            date: 0,
            photo: 0,
            version: 0,
            pts: 0,
            restricted: false,
            megagroup: false,
            full_data: false,
        }
    }
}

impl App {
    /// An empty crawler state.
    pub fn new() -> (r: App)
        ensures
            r.login@.len() == 0,
            r.channels@.len() == 0,
            r.sessions@.len() == 0,
            r.dcs@.len() == 0,
    {
        App { login: Vec::new(), channels: HashMap::new(), sessions: Vec::new(), dcs: Vec::new() }
    }
}

} // verus!
