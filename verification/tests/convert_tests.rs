use play_gram::converter::{
    conv_message_to_msg, conv_photo_to_media, conv_vidoe_thumbs, conv_vidoe_thumbs_rec,
    extract_urls_from_message_entity, process_inline_channel_chats,
    process_inline_channel_messages, process_inline_markup_urls, process_inline_media,
    process_inline_webpage,
};
use play_gram::tl_model::{
    TlChannelData, TlChat, TlDocument, TlDocumentAttribute, TlDocumentData, TlFileLocation,
    TlFwdHeader, TlKeyboardButton, TlKeyboardRow, TlMessage, TlMessageData, TlMessageEntity,
    TlMessageMedia, TlPhoto, TlPhotoData, TlPhotoSize, TlReplyMarkup, TlWebPage, TlWebPageData,
};
use play_gram::types::{Media, MediaType};

fn size(t: &str, w: i32, h: i32, s: i32, vol: i64) -> TlPhotoSize {
    TlPhotoSize::Size {
        size_type: t.to_string(),
        location: TlFileLocation { volume_id: vol, local_id: vol as i32 + 1 },
        w,
        h,
        size: s,
    }
}

fn photo(sizes: Vec<TlPhotoSize>) -> TlPhoto {
    TlPhoto::Photo(TlPhotoData {
        has_stickers: true,
        id: 77,
        access_hash: 88,
        file_reference: vec![1, 2, 3],
        date: 1000,
        sizes,
        dc_id: 4,
    })
}

fn message(id: i32) -> TlMessageData {
    TlMessageData {
        silent: false,
        post: true,
        id,
        fwd_from: None,
        via_bot_id: None,
        reply_to_msg_id: Some(3),
        date: 55,
        message: "hello".to_string(),
        media: None,
        reply_markup: None,
        entities: None,
        views: Some(10),
        edit_date: None,
        has_restriction_reason: false,
    }
}

#[test]
fn photo_takes_largest_size() {
    let p = photo(vec![size("s", 10, 10, 100, 1), TlPhotoSize::Other, size("x", 80, 60, 900, 2), size("m", 40, 30, 400, 3)]);
    let m = conv_photo_to_media(&p).unwrap();
    assert_eq!(m.media_type, MediaType::Image);
    assert_eq!(m.size, 900);
    assert_eq!((m.w, m.h), (80, 60));
    assert_eq!(m.photo_size_type, "x");
    assert_eq!((m.dep_volume_id, m.dep_local_id), (2, 3));
    assert_eq!(m.file_extention, ".jpg");
    assert!(m.has_sticker);
    assert_eq!(m.file_reference, vec![1, 2, 3]);
}

#[test]
fn photo_first_of_equal_sizes_wins() {
    let p = photo(vec![size("a", 1, 1, 50, 1), size("b", 2, 2, 50, 2)]);
    assert_eq!(conv_photo_to_media(&p).unwrap().photo_size_type, "a");
}

#[test]
fn photo_without_positive_size_keeps_none() {
    let p = photo(vec![size("a", 1, 1, 0, 1)]);
    let m = conv_photo_to_media(&p).unwrap();
    assert_eq!(m.size, 0);
    assert_eq!(m.photo_size_type, "");
}

#[test]
fn empty_photo_has_no_media() {
    assert!(conv_photo_to_media(&TlPhoto::Empty).is_none());
}

#[test]
fn video_thumbs() {
    assert!(conv_vidoe_thumbs(&vec![]).is_none());
    let t = conv_vidoe_thumbs(&vec![size("s", 1, 1, 5, 1), size("m", 3, 3, 9, 2)]).unwrap();
    assert_eq!(t.size_type, "m");
    assert_eq!(t.size, 9);
    let none = conv_vidoe_thumbs(&vec![TlPhotoSize::Other]).unwrap();
    assert_eq!(none.size, 0);
}

#[test]
fn video_thumb_media_uses_first_stored_size() {
    let mut video = Media::default();
    video.id = 5;
    video.access_hash = 6;
    video.file_reference = vec![9];
    let r = conv_vidoe_thumbs_rec(&video, &vec![TlPhotoSize::Other, size("s", 1, 1, 5, 1), size("m", 3, 3, 9, 2)]).unwrap();
    assert_eq!(r.photo_size_type, "s");
    assert_eq!(r.size, 5);
    assert_eq!(r.id, 5);
    assert_eq!(r.file_reference, vec![9]);
    assert_eq!(r.file_extention, "jpg");
    assert!(conv_vidoe_thumbs_rec(&video, &vec![TlPhotoSize::Other]).is_none());
}

fn document(attributes: Vec<TlDocumentAttribute>, thumbs: Option<Vec<TlPhotoSize>>) -> TlMessageMedia {
    TlMessageMedia::Document {
        document: Some(TlDocument::Document(TlDocumentData {
            id: 11,
            access_hash: 12,
            file_reference: vec![7],
            date: 13,
            mime_type: "video/mp4".to_string(),
            size: 1400,
            thumbs,
            dc_id: 2,
            attributes,
        })),
        ttl_seconds: Some(30),
    }
}

#[test]
fn document_video() {
    let mm = document(
        vec![
            TlDocumentAttribute::Video { round_message: true, supports_streaming: true, duration: 61, w: 640, h: 480 },
            TlDocumentAttribute::Filename { file_name: "clip.mp4".to_string() },
            TlDocumentAttribute::Animated,
        ],
        Some(vec![size("s", 90, 60, 300, 4)]),
    );
    let m = process_inline_media(&mm).unwrap();
    assert_eq!(m.media_type, MediaType::Video);
    assert_eq!((m.w, m.h, m.duration), (640, 480, 61));
    assert!(m.round_message && m.supports_streaming && m.animated);
    assert_eq!(m.file_name, "clip.mp4");
    assert_eq!(m.file_extention, ".mp4");
    assert_eq!(m.ttl_seconds, 30);
    assert_eq!(m.mime_type, "video/mp4");
    let rec = (*m.video_thumbs_rec).clone().unwrap();
    assert_eq!(rec.id, 11);
    assert_eq!(rec.size, 300);
    assert_eq!(m.video_thumbs.unwrap().size_type, "s");
}

#[test]
fn document_audio_and_later_attributes_win() {
    let mm = document(
        vec![
            TlDocumentAttribute::ImageSize { w: 5, h: 6 },
            TlDocumentAttribute::Audio { voice: true, duration: 9, title: Some("song".to_string()), performer: None, waveform: Some(vec![1, 2]) },
            TlDocumentAttribute::HasStickers,
            TlDocumentAttribute::Sticker,
        ],
        None,
    );
    let m = process_inline_media(&mm).unwrap();
    assert_eq!(m.media_type, MediaType::Audio);
    assert_eq!((m.w, m.h), (5, 6));
    assert!(m.voice);
    assert_eq!(m.title, "song");
    assert_eq!(m.performer, "");
    assert_eq!(m.waveform, vec![1, 2]);
    assert!(m.has_stickers);
    assert!(m.video_thumbs_rec.is_none());
}

#[test]
fn empty_document_still_has_media() {
    let mm = TlMessageMedia::Document { document: Some(TlDocument::Empty), ttl_seconds: None };
    let m = process_inline_media(&mm).unwrap();
    assert_eq!(m.media_type, MediaType::Unknown);
    assert_eq!(m.ttl_seconds, 0);
}

#[test]
fn photo_media_with_ttl() {
    let mm = TlMessageMedia::Photo { photo: Some(photo(vec![size("x", 1, 1, 3, 1)])), ttl_seconds: Some(8) };
    assert_eq!(process_inline_media(&mm).unwrap().ttl_seconds, 8);
    let none = TlMessageMedia::Photo { photo: None, ttl_seconds: Some(8) };
    assert!(process_inline_media(&none).is_none());
    assert!(process_inline_media(&TlMessageMedia::Other).is_none());
}

#[test]
fn webpage_preview() {
    let mm = TlMessageMedia::WebPage(TlWebPage::Page(TlWebPageData {
        id: 3,
        url: "https://example.org/a".to_string(),
        display_url: "example.org/a".to_string(),
        hash: 4,
        page_type: Some("article".to_string()),
        site_name: None,
        title: Some("T".to_string()),
        description: None,
        photo: Some(photo(vec![size("x", 2, 2, 4, 1)])),
    }));
    let w = process_inline_webpage(&mm).unwrap();
    assert_eq!(w.url, "https://example.org/a");
    assert_eq!(w.page_type, "article");
    assert_eq!(w.site_name, "");
    assert_eq!(w.photo.unwrap().size, 4);
    assert!(process_inline_media(&mm).is_none());
    assert!(process_inline_webpage(&TlMessageMedia::WebPage(TlWebPage::Pending)).is_none());
}

#[test]
fn markup_links_carry_their_row() {
    let rows = vec![
        TlKeyboardRow { buttons: vec![TlKeyboardButton::Url { text: "a".to_string(), url: "u1".to_string() }, TlKeyboardButton::Other] },
        TlKeyboardRow { buttons: vec![TlKeyboardButton::UrlAuth] },
        TlKeyboardRow { buttons: vec![TlKeyboardButton::Url { text: "b".to_string(), url: "u2".to_string() }, TlKeyboardButton::Url { text: "c".to_string(), url: "u3".to_string() }] },
    ];
    let v = process_inline_markup_urls(&TlReplyMarkup::Inline { rows }).unwrap();
    let got: Vec<(i64, String, String)> = v.into_iter().map(|u| (u.row_id, u.text, u.url)).collect();
    assert_eq!(got, vec![(0, "a".into(), "u1".into()), (2, "b".into(), "u2".into()), (2, "c".into(), "u3".into())]);
    assert!(process_inline_markup_urls(&TlReplyMarkup::Inline { rows: vec![] }).is_none());
    assert!(process_inline_markup_urls(&TlReplyMarkup::Other).is_none());
}

#[test]
fn message_record() {
    let mut m = message(42);
    m.fwd_from = Some(TlFwdHeader { from_id: None, from_name: Some("n".to_string()), date: 9, channel_id: Some(5), channel_post: None, post_author: None, saved_from_msg_id: Some(6) });
    m.has_restriction_reason = true;
    let msg = conv_message_to_msg(&m);
    assert_eq!(msg.id, 42);
    assert_eq!(msg.from_id, 42);
    assert_eq!(msg.reply_to_msg_id, 3);
    assert_eq!(msg.via_bot_id, 0);
    assert_eq!(msg.views, 10);
    assert!(msg.restricted);
    let f = msg.forward.unwrap();
    assert_eq!((f.from_id, f.channel_id, f.saved_from_msg_id), (0, 5, 6));
    assert_eq!(f.from_name, "n");
    assert!(msg.media.is_none() && msg.webpage.is_none() && msg.markup_urls.is_none());
}

#[test]
fn text_links() {
    let e = Some(vec![TlMessageEntity::Other, TlMessageEntity::TextUrl { url: "x".to_string() }, TlMessageEntity::TextUrl { url: "y".to_string() }]);
    assert_eq!(extract_urls_from_message_entity(&e), vec!["x", "y"]);
    assert!(extract_urls_from_message_entity(&None).is_empty());
}

#[test]
fn channel_messages_skip_service() {
    let mut a = message(1);
    a.entities = Some(vec![TlMessageEntity::TextUrl { url: "l1".to_string() }]);
    a.media = Some(TlMessageMedia::Photo { photo: Some(photo(vec![size("x", 1, 1, 2, 1)])), ttl_seconds: None });
    let mut b = message(2);
    b.entities = Some(vec![TlMessageEntity::TextUrl { url: "l2".to_string() }]);
    b.reply_markup = Some(TlReplyMarkup::Inline { rows: vec![TlKeyboardRow { buttons: vec![TlKeyboardButton::Url { text: "t".to_string(), url: "u".to_string() }] }] });
    let (msgs, urls) = process_inline_channel_messages(&vec![TlMessage::Message(a), TlMessage::Service, TlMessage::Empty, TlMessage::Message(b)]);
    assert_eq!(msgs.len(), 2);
    assert_eq!(msgs[0].id, 1);
    assert!(msgs[0].media.is_some());
    assert_eq!(msgs[1].markup_urls.as_ref().unwrap().len(), 1);
    assert_eq!(urls, vec!["l1", "l2"]);
}

#[test]
fn chats_keep_channels() {
    let ch = TlChannelData { id: 9, title: "C".to_string(), username: None, access_hash: Some(5), date: 1, version: 2, restricted: false, megagroup: true };
    let out = process_inline_channel_chats(&vec![TlChat::Other, TlChat::Channel(ch)]);
    assert_eq!(out.len(), 1);
    assert_eq!(out[0].id, 9);
    assert_eq!(out[0].username, "");
    assert_eq!(out[0].access_hash, 5);
    assert!(out[0].megagroup);
    assert!(!out[0].full_data);
}
