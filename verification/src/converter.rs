//! Conversion of Telegram data into the crawler's records.

use vstd::prelude::*;
use crate::tl_model::{
    TlChat, TlDocument, TlDocumentAttribute, TlDocumentData, TlFileLocation, TlFwdHeader,
    TlKeyboardButton, TlKeyboardRow, TlMessage, TlMessageData, TlMessageEntity, TlMessageMedia,
    TlPhoto, TlPhotoData, TlPhotoSize, TlReplyMarkup, TlWebPage,
};
use crate::text::string_views;
use crate::utils::{extension_for, get_file_extension_from_mime_type, mime_db_extension};
use crate::types::{
    channel_views, copy_bytes, default_channel_info_view, default_media_view, markup_views,
    media_opt_view, msg_views, thumb_opt_view, ChannelInfo, ChannelInfoView, MarkupUrl,
    MarkupUrlView, Media, MediaThumb, MediaThumbView, MediaType, MediaView, Msg, MsgForwarded,
    MsgForwardedView, MsgView, WebPage, WebPageView,
};

verus! {

// ------------------------------------------------------------ photo sizes

/// The size of a photo chosen so far while scanning its sizes.
pub ghost struct SizePick {
    pub size_type: Seq<char>,
    pub volume_id: i64,
    pub local_id: i32,
    pub w: i32,
    pub h: i32,
    pub size: i32,
}

/// Nothing chosen yet: every field zero or empty.
pub open spec fn no_pick() -> SizePick {
    SizePick { size_type: Seq::empty(), volume_id: 0, local_id: 0, w: 0, h: 0, size: 0 }
}

/// One scanning step: a stored size replaces the choice when it is
/// strictly larger.
pub open spec fn pick_larger(prev: SizePick, s: TlPhotoSize) -> SizePick {
    match s {
        TlPhotoSize::Size { size_type, location, w, h, size } => if prev.size < size {
            SizePick {
                size_type: size_type@,
                volume_id: location.volume_id,
                local_id: location.local_id,
                w,
                h,
                size,
            }
        } else {
            prev
        },
        TlPhotoSize::Other => prev,
    }
}

/// Scanning `sizes` from the first to the last, starting from `start`.
pub open spec fn pick_largest(sizes: Seq<TlPhotoSize>, start: SizePick) -> SizePick
    decreases sizes.len(),
{
    if sizes.len() == 0 {
        start
    } else {
        pick_larger(pick_largest(sizes.drop_last(), start), sizes.last())
    }
}

/// The choice a stored size makes.
pub open spec fn size_pick_of(s: TlPhotoSize) -> SizePick {
    match s {
        TlPhotoSize::Size { size_type, location, w, h, size } => SizePick {
            size_type: size_type@,
            volume_id: location.volume_id,
            local_id: location.local_id,
            w,
            h,
            size,
        },
        TlPhotoSize::Other => no_pick(),
    }
}

/// The size chosen from a list of sizes is at least as large as the start
/// and as every stored size in the list, and it is either the start or one
/// of the stored sizes.
pub proof fn lemma_pick_largest_is_max(sizes: Seq<TlPhotoSize>, start: SizePick)
    ensures
        pick_largest(sizes, start).size >= start.size,
        forall|k: int|
            0 <= k < sizes.len() && (#[trigger] sizes[k]) is Size ==> sizes[k]->size
                <= pick_largest(sizes, start).size,
        pick_largest(sizes, start) == start || exists|k: int|
            0 <= k < sizes.len() && (#[trigger] sizes[k]) is Size && pick_largest(sizes, start)
                == size_pick_of(sizes[k]),
    decreases sizes.len(),
{
    if sizes.len() > 0 {
        let prefix = sizes.drop_last();
        lemma_pick_largest_is_max(prefix, start);
        let prev = pick_largest(prefix, start);
        let cur = pick_largest(sizes, start);
        assert forall|k: int|
            0 <= k < sizes.len() && (#[trigger] sizes[k]) is Size implies sizes[k]->size
                <= cur.size by {
            if k < sizes.len() - 1 {
                assert(sizes[k] == prefix[k]);
            }
        }
        if cur != start && cur != prev {
            assert(sizes[sizes.len() - 1] is Size);
            assert(cur == size_pick_of(sizes[sizes.len() - 1]));
        } else if cur != start {
            let k = choose|k: int|
                0 <= k < prefix.len() && (#[trigger] prefix[k]) is Size && prev == size_pick_of(
                    prefix[k],
                );
            assert(sizes[k] == prefix[k]);
        }
    }
}

/// `base` with the choice of size written into it.
pub open spec fn with_pick(base: MediaView, p: SizePick) -> MediaView {
    MediaView {
        photo_size_type: p.size_type,
        dep_volume_id: p.volume_id,
        dep_local_id: p.local_id,
        w: p.w,
        h: p.h,
        size: p.size,
        ..base
    }
}

/// The photo's fields, before any size is chosen.
pub open spec fn photo_base(p: TlPhotoData) -> MediaView {
    MediaView {
        media_type: MediaType::Image,
        has_sticker: p.has_stickers,
        id: p.id,
        access_hash: p.access_hash,
        file_reference: p.file_reference@,
        date: p.date,
        dc_id: p.dc_id,
        file_extention: ".jpg"@,
        ..default_media_view()
    }
}

/// The media record of a stored photo: its largest stored size is chosen.
pub open spec fn photo_media_view(p: TlPhotoData) -> MediaView {
    with_pick(photo_base(p), pick_largest(p.sizes@, no_pick()))
}

/// The media record of a photo, if it is not empty.
pub open spec fn photo_to_media(ph: TlPhoto) -> Option<MediaView> {
    match ph {
        TlPhoto::Photo(p) => Some(photo_media_view(p)),
        TlPhoto::Empty => None,
    }
}

/// Writes a stored size into the chosen-size fields of `m`.
fn set_pick_fields(m: &mut Media, size_type: &String, location: &TlFileLocation, w: i32, h: i32, size: i32)
    ensures
        final(m)@ == with_pick(
            old(m)@,
            SizePick {
                size_type: size_type@,
                volume_id: location.volume_id,
                local_id: location.local_id,
                w,
                h,
                size,
            },
        ),
{
    m.photo_size_type = size_type.clone();
    let fl = conv_file_location(location);
    m.dep_volume_id = fl.0;
    m.dep_local_id = fl.1;
    m.w = w;
    m.h = h;
    m.size = size;
}

/// The volume and local ids of a file location.
pub fn conv_file_location(fl: &TlFileLocation) -> (r: (i64, i32))
    ensures
        r == (fl.volume_id, fl.local_id),
{
    (fl.volume_id, fl.local_id)
}

/// The media record of a photo: `None` for an empty photo, else the photo
/// with its largest stored size.
pub fn conv_photo_to_media(photo_enum: &TlPhoto) -> (r: Option<Media>)
    ensures
        media_opt_view(r) == photo_to_media(*photo_enum),
{
    match photo_enum {
        TlPhoto::Photo(p) => {
            let mut m = Media::default();
            m.media_type = MediaType::Image;
            m.has_sticker = p.has_stickers;
            m.id = p.id;
            m.access_hash = p.access_hash;
            m.file_reference = copy_bytes(&p.file_reference);
            m.date = p.date;
            m.dc_id = p.dc_id;
            m.file_extention = ".jpg".to_owned();
            assert(m@ == with_pick(photo_base(*p), no_pick()));
            for i in 0..p.sizes.len()
                invariant
                    m@ == with_pick(photo_base(*p), pick_largest(p.sizes@.take(i as int), no_pick())),
            {
                assert(p.sizes@.take(i + 1).drop_last() =~= p.sizes@.take(i as int));
                match &p.sizes[i] {
                    TlPhotoSize::Size { size_type, location, w, h, size } => {
                        if m.size < *size {
                            set_pick_fields(&mut m, size_type, location, *w, *h, *size);
                        }
                    },
                    TlPhotoSize::Other => {},
                }
            }
            assert(p.sizes@.take(p.sizes@.len() as int) =~= p.sizes@);
            Some(m)
        },
        TlPhoto::Empty => None,
    }
}

/// A video's thumbnail record from a chosen size.
pub open spec fn thumb_of_pick(p: SizePick) -> MediaThumbView {
    MediaThumbView {
        size_type: p.size_type,
        dep_volume_id: p.volume_id,
        dep_local_id: p.local_id,
        w: p.w,
        h: p.h,
        size: p.size,
    }
}

/// The thumbnail record of a video: `None` when it lists no sizes, else
/// its largest stored size.
pub open spec fn video_thumb(sizes: Seq<TlPhotoSize>) -> Option<MediaThumbView> {
    if sizes.len() == 0 {
        None
    } else {
        Some(thumb_of_pick(pick_largest(sizes, no_pick())))
    }
}

/// The thumbnail record of a video from the sizes of its thumbnails.
pub fn conv_vidoe_thumbs(vts: &Vec<TlPhotoSize>) -> (r: Option<MediaThumb>)
    ensures
        thumb_opt_view(r) == video_thumb(vts@),
{
    if vts.len() == 0 {
        return None;
    }
    let mut m = MediaThumb::default();
    for i in 0..vts.len()
        invariant
            m@ == thumb_of_pick(pick_largest(vts@.take(i as int), no_pick())),
    {
        assert(vts@.take(i + 1).drop_last() =~= vts@.take(i as int));
        match &vts[i] {
            TlPhotoSize::Size { size_type, location, w, h, size } => {
                if m.size < *size {
                    m.size_type = size_type.clone();
                    m.w = *w;
                    m.h = *h;
                    m.size = *size;
                    m.dep_volume_id = location.volume_id;
                    m.dep_local_id = location.local_id;
                }
            },
            TlPhotoSize::Other => {},
        }
    }
    assert(vts@.take(vts@.len() as int) =~= vts@);
    Some(m)
}

/// The first stored size among `sizes`.
pub open spec fn first_stored_size(sizes: Seq<TlPhotoSize>) -> Option<TlPhotoSize>
    decreases sizes.len(),
{
    if sizes.len() == 0 {
        None
    } else if sizes[0] is Size {
        Some(sizes[0])
    } else {
        first_stored_size(sizes.drop_first())
    }
}

/// The fields a video's thumbnail media takes from the video.
pub open spec fn thumb_media_base(media: MediaView) -> MediaView {
    MediaView {
        id: media.id,
        access_hash: media.access_hash,
        file_reference: media.file_reference,
        file_extention: "jpg"@,
        ..default_media_view()
    }
}

/// The thumbnail of a video as a downloadable media: built from the first
/// stored size of its thumbnails, `None` when there is none.
pub open spec fn video_thumb_media(media: MediaView, sizes: Seq<TlPhotoSize>) -> Option<MediaView> {
    match first_stored_size(sizes) {
        Some(s) => Some(with_pick(thumb_media_base(media), pick_larger(no_pick(), s))),
        None => None,
    }
}

/// The thumbnail of the video `medid` as a downloadable media, built from
/// the first stored size among `vts` (not the largest one); `None` when no
/// size is stored.
pub fn conv_vidoe_thumbs_rec(medid: &Media, vts: &Vec<TlPhotoSize>) -> (r: Option<Media>)
    ensures
        media_opt_view(r) == video_thumb_media(medid@, vts@),
{
    let mut m = Media::default();
    m.id = medid.id;
    m.access_hash = medid.access_hash;
    m.file_reference = copy_bytes(&medid.file_reference);
    m.file_extention = "jpg".to_owned();
    assert(m@ == with_pick(thumb_media_base(medid@), no_pick()));
    assert(vts@.skip(0) =~= vts@);
    for i in 0..vts.len()
        invariant
            m@ == with_pick(thumb_media_base(medid@), no_pick()),
            first_stored_size(vts@) == first_stored_size(vts@.skip(i as int)),
    {
        assert(vts@.skip(i as int)[0] == vts@[i as int]);
        match &vts[i] {
            TlPhotoSize::Size { size_type, location, w, h, size } => {
                if m.size < *size {
                    set_pick_fields(&mut m, size_type, location, *w, *h, *size);
                }
                return Some(m);
            },
            TlPhotoSize::Other => {
                assert(vts@.skip(i as int).drop_first() =~= vts@.skip(i + 1));
            },
        }
    }
    None
}

// ------------------------------------------------------------ documents

/// The text of an optional string, empty when absent.
pub open spec fn str_or_empty(o: Option<String>) -> Seq<char> {
    match o {
        Some(s) => s@,
        None => Seq::empty(),
    }
}

/// The bytes of an optional byte vector, empty when absent.
pub open spec fn bytes_or_empty(o: Option<Vec<u8>>) -> Seq<u8> {
    match o {
        Some(v) => v@,
        None => Seq::empty(),
    }
}

/// An optional number, 0 when absent.
pub open spec fn i32_or_zero(o: Option<i32>) -> i32 {
    match o {
        Some(v) => v,
        None => 0,
    }
}

/// What one attribute of a document writes into its media record.
pub open spec fn apply_attribute(m: MediaView, a: TlDocumentAttribute) -> MediaView {
    match a {
        TlDocumentAttribute::ImageSize { w, h } => MediaView { media_type: MediaType::File, w, h, ..m },
        TlDocumentAttribute::Animated => MediaView { animated: true, ..m },
        TlDocumentAttribute::Sticker => m,
        TlDocumentAttribute::Video { round_message, supports_streaming, duration, w, h } => MediaView {
            media_type: MediaType::Video,
            round_message,
            supports_streaming,
            duration,
            w,
            h,
            ..m
        },
        TlDocumentAttribute::Audio { voice, duration, title, performer, waveform } => MediaView {
            media_type: MediaType::Audio,
            voice,
            duration,
            title: str_or_empty(title),
            performer: str_or_empty(performer),
            waveform: bytes_or_empty(waveform),
            ..m
        },
        TlDocumentAttribute::Filename { file_name } => MediaView { file_name: file_name@, ..m },
        TlDocumentAttribute::HasStickers => MediaView { has_stickers: true, ..m },
    }
}

/// The attributes applied in order, each over the result of the ones before.
pub open spec fn apply_attributes(m: MediaView, attrs: Seq<TlDocumentAttribute>) -> MediaView
    decreases attrs.len(),
{
    if attrs.len() == 0 {
        m
    } else {
        apply_attribute(apply_attributes(m, attrs.drop_last()), attrs.last())
    }
}

/// An optional media value, boxed.
pub open spec fn boxed(o: Option<MediaView>) -> Option<Box<MediaView>> {
    match o {
        Some(v) => Some(Box::new(v)),
        None => None,
    }
}

/// The fields of a document's media record before its attributes.
pub open spec fn document_fields(d: TlDocumentData, ttl: i32) -> MediaView {
    MediaView {
        ttl_seconds: ttl,
        media_type: MediaType::File,
        id: d.id,
        access_hash: d.access_hash,
        file_reference: d.file_reference@,
        date: d.date,
        mime_type: d.mime_type@,
        size: d.size,
        dc_id: d.dc_id,
        file_extention: extension_for(d.mime_type@, mime_db_extension(d.mime_type@)),
        ..default_media_view()
    }
}

/// The document's fields with its thumbnails, before its attributes.
pub open spec fn document_base(d: TlDocumentData, ttl: i32) -> MediaView {
    let m0 = document_fields(d, ttl);
    match d.thumbs {
        Some(t) => MediaView {
            video_thumbs_rec: boxed(video_thumb_media(m0, t@)),
            video_thumbs: video_thumb(t@),
            ..m0
        },
        None => m0,
    }
}

/// The media record of a stored document.
pub open spec fn document_media_view(d: TlDocumentData, ttl: i32) -> MediaView {
    apply_attributes(document_base(d, ttl), d.attributes@)
}

/// The media record of a message's media: photos and documents have one,
/// other media have none.
pub open spec fn message_media_view(mm: TlMessageMedia) -> Option<MediaView> {
    match mm {
        TlMessageMedia::Photo { photo, ttl_seconds } => match photo {
            Some(pic) => match photo_to_media(pic) {
                Some(v) => Some(MediaView { ttl_seconds: i32_or_zero(ttl_seconds), ..v }),
                None => None,
            },
            None => None,
        },
        TlMessageMedia::Document { document, ttl_seconds } => Some(
            match document {
                Some(TlDocument::Document(d)) => document_media_view(d, i32_or_zero(ttl_seconds)),
                _ => MediaView { ttl_seconds: i32_or_zero(ttl_seconds), ..default_media_view() },
            },
        ),
        _ => None,
    }
}

/// A copy of an optional string, empty when absent.
pub fn string_or_empty(o: &Option<String>) -> (r: String)
    ensures
        r@ == str_or_empty(*o),
{
    match o {
        Some(s) => s.clone(),
        None => String::new(),
    }
}

/// Writes one document attribute into `m`.
fn apply_document_attribute(m: &mut Media, a: &TlDocumentAttribute)
    ensures
        final(m)@ == apply_attribute(old(m)@, *a),
{
    match a {
        TlDocumentAttribute::ImageSize { w, h } => {
            m.media_type = MediaType::File;
            m.w = *w;
            m.h = *h;
        },
        TlDocumentAttribute::Animated => {
            m.animated = true;
        },
        TlDocumentAttribute::Sticker => {},
        TlDocumentAttribute::Video { round_message, supports_streaming, duration, w, h } => {
            m.media_type = MediaType::Video;
            m.round_message = *round_message;
            m.supports_streaming = *supports_streaming;
            m.duration = *duration;
            m.w = *w;
            m.h = *h;
        },
        TlDocumentAttribute::Audio { voice, duration, title, performer, waveform } => {
            m.media_type = MediaType::Audio;
            m.voice = *voice;
            m.duration = *duration;
            m.title = string_or_empty(title);
            m.performer = string_or_empty(performer);
            m.waveform = match waveform {
                Some(v) => copy_bytes(v),
                None => Vec::new(),
            };
        },
        TlDocumentAttribute::Filename { file_name } => {
            m.file_name = file_name.clone();
        },
        TlDocumentAttribute::HasStickers => {
            m.has_stickers = true;
        },
    }
}

/// The media record of a stored document whose message gave `ttl`.
fn conv_document_to_media(p: &TlDocumentData, ttl: i32) -> (m: Media)
    ensures
        m@ == document_media_view(*p, ttl),
{
    let mut m = Media::default();
    m.ttl_seconds = ttl;
    m.media_type = MediaType::File;
    m.id = p.id;
    m.access_hash = p.access_hash;
    m.file_reference = copy_bytes(&p.file_reference);
    m.date = p.date;
    m.mime_type = p.mime_type.clone();
    m.size = p.size;
    m.dc_id = p.dc_id;
    m.file_extention = get_file_extension_from_mime_type(p.mime_type.as_str());
    assert(m@ == document_fields(*p, ttl));
    match &p.thumbs {
        Some(t) => {
            let rec = conv_vidoe_thumbs_rec(&m, t);
            m.video_thumbs_rec = Box::new(rec);
            m.video_thumbs = conv_vidoe_thumbs(t);
        },
        None => {},
    }
    assert(m@ == document_base(*p, ttl));
    for i in 0..p.attributes.len()
        invariant
            m@ == apply_attributes(document_base(*p, ttl), p.attributes@.take(i as int)),
    {
        assert(p.attributes@.take(i + 1).drop_last() =~= p.attributes@.take(i as int));
        apply_document_attribute(&mut m, &p.attributes[i]);
    }
    assert(p.attributes@.take(p.attributes@.len() as int) =~= p.attributes@);
    m
}

/// The media record of a message's media: a photo's largest size, or a
/// document with its thumbnails and attributes; `None` for other media.
pub fn process_inline_media(mm: &TlMessageMedia) -> (r: Option<Media>)
    ensures
        media_opt_view(r) == message_media_view(*mm),
{
    match mm {
        TlMessageMedia::Photo { photo, ttl_seconds } => {
            if let Some(pic) = photo {
                let mp = conv_photo_to_media(pic);
                if let Some(mut mp) = mp {
                    mp.ttl_seconds = match ttl_seconds {
                        Some(t) => *t,
                        None => 0,
                    };
                    return Some(mp);
                }
            }
            None
        },
        TlMessageMedia::Document { document, ttl_seconds } => {
            let ttl = match ttl_seconds {
                Some(t) => *t,
                None => 0,
            };
            match document {
                Some(TlDocument::Document(doc)) => Some(conv_document_to_media(doc, ttl)),
                _ => {
                    let mut m = Media::default();
                    m.ttl_seconds = ttl;
                    Some(m)
                },
            }
        },
        _ => None,
    }
}

// ------------------------------------------------------------ web pages

/// The preview record of a message's media: only a loaded web page has one.
pub open spec fn message_webpage_view(mm: TlMessageMedia) -> Option<WebPageView> {
    match mm {
        TlMessageMedia::WebPage(TlWebPage::Page(v)) => Some(
            WebPageView {
                id: v.id,
                url: v.url@,
                display_url: v.display_url@,
                hash: v.hash,
                page_type: str_or_empty(v.page_type),
                site_name: str_or_empty(v.site_name),
                title: str_or_empty(v.title),
                description: str_or_empty(v.description),
                photo: match v.photo {
                    Some(ph) => photo_to_media(ph),
                    None => None,
                },
            },
        ),
        _ => None,
    }
}

/// The preview record of a message's media, if it is a loaded web page.
pub fn process_inline_webpage(mm: &TlMessageMedia) -> (r: Option<WebPage>)
    ensures
        match r {
            Some(w) => message_webpage_view(*mm) == Some(w@),
            None => message_webpage_view(*mm) is None,
        },
{
    match mm {
        TlMessageMedia::WebPage(TlWebPage::Page(v)) => {
            let mut w = WebPage {
                id: v.id,
                url: v.url.clone(),
                display_url: v.display_url.clone(),
                hash: v.hash,
                page_type: string_or_empty(&v.page_type),
                site_name: string_or_empty(&v.site_name),
                title: string_or_empty(&v.title),
                description: string_or_empty(&v.description),
                photo: None,
            };
            if let Some(ph) = &v.photo {
                w.photo = conv_photo_to_media(ph);
            }
            Some(w)
        },
        _ => None,
    }
}

// ------------------------------------------------------------ link buttons

/// The link buttons of one row, in order, tagged with the row's index.
pub open spec fn row_urls(buttons: Seq<TlKeyboardButton>, row_id: i64) -> Seq<MarkupUrlView>
    decreases buttons.len(),
{
    if buttons.len() == 0 {
        Seq::empty()
    } else {
        let prev = row_urls(buttons.drop_last(), row_id);
        match buttons.last() {
            TlKeyboardButton::Url { text, url } => prev.push(
                MarkupUrlView { row_id, text: text@, url: url@ },
            ),
            _ => prev,
        }
    }
}

/// The link buttons of all rows, row by row.
pub open spec fn rows_urls(rows: Seq<TlKeyboardRow>) -> Seq<MarkupUrlView>
    decreases rows.len(),
{
    if rows.len() == 0 {
        Seq::empty()
    } else {
        rows_urls(rows.drop_last()) + row_urls(rows.last().buttons@, (rows.len() - 1) as i64)
    }
}

/// The link buttons under a message: those of an inline keyboard, or
/// `None` when there are none.
pub open spec fn markup_urls_view(ms: TlReplyMarkup) -> Option<Seq<MarkupUrlView>> {
    match ms {
        TlReplyMarkup::Inline { rows } => if rows_urls(rows@).len() > 0 {
            Some(rows_urls(rows@))
        } else {
            None
        },
        _ => None,
    }
}

/// The link buttons under a message, each with the index of its row;
/// `None` when there are none.
pub fn process_inline_markup_urls(ms: &TlReplyMarkup) -> (r: Option<Vec<MarkupUrl>>)
    requires
        ms matches TlReplyMarkup::Inline { rows } ==> rows@.len() < i64::MAX,
    ensures
        match r {
            Some(v) => markup_urls_view(*ms) == Some(markup_views(v@)),
            None => markup_urls_view(*ms) is None,
        },
{
    let mut arr: Vec<MarkupUrl> = Vec::new();
    match ms {
        TlReplyMarkup::Inline { rows } => {
            let mut m: i64 = -1;
            for i in 0..rows.len()
                invariant
                    rows@.len() < i64::MAX,
                    m == i - 1,
                    markup_views(arr@) == rows_urls(rows@.take(i as int)),
            {
                m = m + 1;
                let row = &rows[i];
                let ghost before = arr@;
                for j in 0..row.buttons.len()
                    invariant
                        markup_views(arr@) == markup_views(before) + row_urls(
                            row.buttons@.take(j as int),
                            m,
                        ),
                {
                    assert(row.buttons@.take(j + 1).drop_last() =~= row.buttons@.take(j as int));
                    match &row.buttons[j] {
                        TlKeyboardButton::Url { text, url } => {
                            let ghost mid = arr@;
                            arr.push(MarkupUrl { row_id: m, text: text.clone(), url: url.clone() });
                            assert(markup_views(arr@) =~= markup_views(mid).push(arr@.last()@));
                        },
                        _ => {},
                    }
                }
                assert(row.buttons@.take(row.buttons@.len() as int) =~= row.buttons@);
                assert(rows@.take(i + 1).drop_last() =~= rows@.take(i as int));
                assert(rows@.take(i + 1).last() == rows@[i as int]);
            }
            assert(rows@.take(rows@.len() as int) =~= rows@);
        },
        _ => {},
    }
    if arr.len() > 0 {
        return Some(arr);
    }
    None
}

// ------------------------------------------------------------ messages

/// The record of a forward header.
pub open spec fn forward_view(f: TlFwdHeader) -> MsgForwardedView {
    MsgForwardedView {
        from_id: i32_or_zero(f.from_id),
        from_name: str_or_empty(f.from_name),
        date: f.date,
        channel_id: i32_or_zero(f.channel_id),
        channel_post: i32_or_zero(f.channel_post),
        post_author: str_or_empty(f.post_author),
        saved_from_msg_id: i32_or_zero(f.saved_from_msg_id),
    }
}

/// The record of a message, before its media, preview and buttons are
/// looked at. Its sender id is the message's own id.
pub open spec fn message_view(m: TlMessageData) -> MsgView {
    MsgView {
        silent: m.silent,
        post: m.post,
        id: m.id,
        from_id: m.id,
        via_bot_id: i32_or_zero(m.via_bot_id),
        reply_to_msg_id: i32_or_zero(m.reply_to_msg_id),
        date: m.date,
        message: m.message@,
        views: i32_or_zero(m.views),
        edit_date: i32_or_zero(m.edit_date),
        restricted: m.has_restriction_reason,
        forward: match m.fwd_from {
            Some(f) => Some(forward_view(f)),
            None => None,
        },
        has_replay: false,
        media: None,
        webpage: None,
        markup_urls: None,
    }
}

fn i32_or_zero_of(o: &Option<i32>) -> (r: i32)
    ensures
        r == i32_or_zero(*o),
{
    match o {
        Some(v) => *v,
        None => 0,
    }
}

/// The record of a message, with no media, preview or buttons.
pub fn conv_message_to_msg(m: &TlMessageData) -> (r: Msg)
    ensures
        r@ == message_view(*m),
{
    let fwd = match &m.fwd_from {
        Some(f) => Some(
            MsgForwarded {
                from_id: i32_or_zero_of(&f.from_id),
                from_name: string_or_empty(&f.from_name),
                date: f.date,
                channel_id: i32_or_zero_of(&f.channel_id),
                channel_post: i32_or_zero_of(&f.channel_post),
                post_author: string_or_empty(&f.post_author),
                saved_from_msg_id: i32_or_zero_of(&f.saved_from_msg_id),
            },
        ),
        None => None,
    };
    Msg {
        silent: m.silent,
        post: m.post,
        id: m.id,
        from_id: m.id,
        via_bot_id: i32_or_zero_of(&m.via_bot_id),
        reply_to_msg_id: i32_or_zero_of(&m.reply_to_msg_id),
        date: m.date,
        message: m.message.clone(),
        views: i32_or_zero_of(&m.views),
        edit_date: i32_or_zero_of(&m.edit_date),
        restricted: m.has_restriction_reason,
        forward: fwd,
        replay: None,
        media: None,
        webpage: None,
        markup_urls: None,
    }
}

/// The targets of the text links among `entities`, in order.
pub open spec fn text_urls(entities: Seq<TlMessageEntity>) -> Seq<Seq<char>>
    decreases entities.len(),
{
    if entities.len() == 0 {
        Seq::empty()
    } else {
        let prev = text_urls(entities.drop_last());
        match entities.last() {
            TlMessageEntity::TextUrl { url } => prev.push(url@),
            _ => prev,
        }
    }
}

/// The targets of the text links of a message, none when it has no
/// entities.
pub open spec fn entity_urls(entities: Option<Vec<TlMessageEntity>>) -> Seq<Seq<char>> {
    match entities {
        Some(e) => text_urls(e@),
        None => Seq::empty(),
    }
}

/// The targets of a message's text links, in order.
pub fn extract_urls_from_message_entity(entities: &Option<Vec<TlMessageEntity>>) -> (urls: Vec<
    String,
>)
    ensures
        string_views(urls@) == entity_urls(*entities),
{
    let mut urls: Vec<String> = Vec::new();
    if let Some(ent) = entities {
        for i in 0..ent.len()
            invariant
                string_views(urls@) == text_urls(ent@.take(i as int)),
        {
            assert(ent@.take(i + 1).drop_last() =~= ent@.take(i as int));
            match &ent[i] {
                TlMessageEntity::TextUrl { url } => {
                    let ghost before = urls@;
                    urls.push(url.clone());
                    assert(string_views(urls@) =~= string_views(before).push(url@));
                },
                _ => {},
            }
        }
        assert(ent@.take(ent@.len() as int) =~= ent@);
    }
    urls
}

/// The full record of a message: its media, preview and buttons included.
pub open spec fn full_message_view(m: TlMessageData) -> MsgView {
    let base = message_view(m);
    let with_media = match m.media {
        Some(mm) => MsgView {
            media: message_media_view(mm),
            webpage: message_webpage_view(mm),
            ..base
        },
        None => base,
    };
    match m.reply_markup {
        Some(rm) => MsgView { markup_urls: markup_urls_view(rm), ..with_media },
        None => with_media,
    }
}

/// What a message's buttons need to be read: fewer rows than `i64` counts.
pub open spec fn markup_fits(m: TlMessageData) -> bool {
    m.reply_markup matches Some(TlReplyMarkup::Inline { rows }) ==> rows@.len() < i64::MAX
}

/// The records of the ordinary messages among `messages`, in order.
pub open spec fn channel_msgs_view(messages: Seq<TlMessage>) -> Seq<MsgView>
    decreases messages.len(),
{
    if messages.len() == 0 {
        Seq::empty()
    } else {
        let prev = channel_msgs_view(messages.drop_last());
        match messages.last() {
            TlMessage::Message(m) => prev.push(full_message_view(m)),
            _ => prev,
        }
    }
}

/// The text-link targets of the ordinary messages among `messages`, in
/// order.
pub open spec fn channel_urls_view(messages: Seq<TlMessage>) -> Seq<Seq<char>>
    decreases messages.len(),
{
    if messages.len() == 0 {
        Seq::empty()
    } else {
        let prev = channel_urls_view(messages.drop_last());
        match messages.last() {
            TlMessage::Message(m) => prev + entity_urls(m.entities),
            _ => prev,
        }
    }
}

/// Whether every ordinary message's buttons can be read.
pub open spec fn messages_fit(messages: Seq<TlMessage>) -> bool {
    forall|i: int|
        0 <= i < messages.len() ==> (#[trigger] messages[i] matches TlMessage::Message(m)
            ==> markup_fits(m))
}

/// The record of one ordinary message, with its media, preview and buttons.
fn conv_full_message(m: &TlMessageData) -> (r: Msg)
    requires
        markup_fits(*m),
    ensures
        r@ == full_message_view(*m),
{
    let mut msg = conv_message_to_msg(m);
    if let Some(mm) = &m.media {
        msg.media = process_inline_media(mm);
        msg.webpage = process_inline_webpage(mm);
    }
    if let Some(rm) = &m.reply_markup {
        msg.markup_urls = process_inline_markup_urls(rm);
    }
    msg
}

/// The records of the ordinary messages of a history, and the targets of
/// their text links; empty and service messages are skipped.
pub fn process_inline_channel_messages(messages: &Vec<TlMessage>) -> (r: (Vec<Msg>, Vec<String>))
    requires
        messages_fit(messages@),
    ensures
        msg_views(r.0@) == channel_msgs_view(messages@),
        string_views(r.1@) == channel_urls_view(messages@),
{
    let mut msgs: Vec<Msg> = Vec::new();
    let mut urls: Vec<String> = Vec::new();
    for i in 0..messages.len()
        invariant
            messages_fit(messages@),
            msg_views(msgs@) == channel_msgs_view(messages@.take(i as int)),
            string_views(urls@) == channel_urls_view(messages@.take(i as int)),
    {
        assert(messages@.take(i + 1).drop_last() =~= messages@.take(i as int));
        assert(messages@.take(i + 1).last() == messages@[i as int]);
        match &messages[i] {
            TlMessage::Message(m) => {
                assert(markup_fits(*m));
                let msg = conv_full_message(m);
                let u = extract_urls_from_message_entity(&m.entities);
                let ghost before_msgs = msgs@;
                let ghost before_urls = urls@;
                msgs.push(msg);
                assert(msg_views(msgs@) =~= msg_views(before_msgs).push(msg@));
                for k in 0..u.len()
                    invariant
                        string_views(urls@) == string_views(before_urls) + string_views(
                            u@.take(k as int),
                        ),
                {
                    let ghost mid = urls@;
                    urls.push(u[k].clone());
                    assert(string_views(u@.take(k + 1)) =~= string_views(u@.take(k as int)).push(
                        u@[k as int]@,
                    ));
                    assert(string_views(urls@) =~= string_views(mid).push(u@[k as int]@));
                }
                assert(u@.take(u@.len() as int) =~= u@);
            },
            _ => {},
        }
    }
    assert(messages@.take(messages@.len() as int) =~= messages@);
    (msgs, urls)
}

// ------------------------------------------------------------ chats

/// The record of a channel listed with a history.
pub open spec fn chat_channel_view(ch: crate::tl_model::TlChannelData) -> ChannelInfoView {
    ChannelInfoView {
        id: ch.id,
        title: ch.title@,
        username: str_or_empty(ch.username),
        access_hash: match ch.access_hash {
            Some(a) => a,
            None => 0,
        },
        date: ch.date,
        version: ch.version,
        megagroup: ch.megagroup,
        restricted: ch.restricted,
        ..default_channel_info_view()
    }
}

/// The records of the channels among `chats`, in order.
pub open spec fn chats_view(chats: Seq<TlChat>) -> Seq<ChannelInfoView>
    decreases chats.len(),
{
    if chats.len() == 0 {
        Seq::empty()
    } else {
        let prev = chats_view(chats.drop_last());
        match chats.last() {
            TlChat::Channel(ch) => prev.push(chat_channel_view(ch)),
            _ => prev,
        }
    }
}

/// The record of one channel listed with a history.
pub fn conv_chat_channel(ch: &crate::tl_model::TlChannelData) -> (ci: ChannelInfo)
    ensures
        ci@ == chat_channel_view(*ch),
{
    let mut ci = ChannelInfo::default();
    ci.id = ch.id;
    ci.title = ch.title.clone();
    ci.username = string_or_empty(&ch.username);
    ci.access_hash = match ch.access_hash {
        Some(a) => a,
        None => 0,
    };
    ci.date = ch.date;
    ci.version = ch.version;
    ci.megagroup = ch.megagroup;
    ci.restricted = ch.restricted;
    ci
}

/// The records of the channels listed with a history; other chats are
/// skipped.
pub fn process_inline_channel_chats(chats: &Vec<TlChat>) -> (out: Vec<ChannelInfo>)
    ensures
        channel_views(out@) == chats_view(chats@),
{
    let mut out: Vec<ChannelInfo> = Vec::new();
    for i in 0..chats.len()
        invariant
            channel_views(out@) == chats_view(chats@.take(i as int)),
    {
        assert(chats@.take(i + 1).drop_last() =~= chats@.take(i as int));
        assert(chats@.take(i + 1).last() == chats@[i as int]);
        match &chats[i] {
            TlChat::Channel(ch) => {
                let ghost before = out@;
                let ci = conv_chat_channel(ch);
                out.push(ci);
                assert(channel_views(out@) =~= channel_views(before).push(ci@));
            },
            _ => {},
        }
    }
    assert(chats@.take(chats@.len() as int) =~= chats@);
    out
}

// ------------------------------------------------------------ laws

/// A message's record copies the message's own fields; its media record
/// and its preview come from its media alone, and its link buttons from
/// its reply markup alone, so a message with media keeps its buttons.
pub proof fn lemma_message_record_parts(m: TlMessageData)
    ensures
        full_message_view(m).id == m.id,
        full_message_view(m).silent == m.silent,
        full_message_view(m).post == m.post,
        full_message_view(m).date == m.date,
        full_message_view(m).message == m.message@,
        full_message_view(m).restricted == m.has_restriction_reason,
        full_message_view(m).views == (match m.views {
            Some(v) => v,
            None => 0i32,
        }),
        full_message_view(m).markup_urls == (match m.reply_markup {
            Some(rm) => markup_urls_view(rm),
            None => None::<Seq<MarkupUrlView>>,
        }),
        full_message_view(m).media == (match m.media {
            Some(mm) => message_media_view(mm),
            None => None::<MediaView>,
        }),
        full_message_view(m).webpage == (match m.media {
            Some(mm) => message_webpage_view(mm),
            None => None::<WebPageView>,
        }),
{
}

proof fn lemma_row_urls(buttons: Seq<TlKeyboardButton>, row_id: i64)
    ensures
        row_urls(buttons, row_id).len() > 0 <==> exists|j: int|
            0 <= j < buttons.len() && (#[trigger] buttons[j]) is Url,
        forall|k: int|
            #![trigger row_urls(buttons, row_id)[k]]
            0 <= k < row_urls(buttons, row_id).len() ==> exists|j: int|
                0 <= j < buttons.len() && (#[trigger] buttons[j]) is Url && row_urls(
                    buttons,
                    row_id,
                )[k] == (MarkupUrlView {
                    row_id,
                    text: buttons[j]->Url_text@,
                    url: buttons[j]->Url_url@,
                }),
    decreases buttons.len(),
{
    if buttons.len() > 0 {
        let p = buttons.drop_last();
        lemma_row_urls(p, row_id);
        let last = buttons.len() - 1;
        let r = row_urls(buttons, row_id);
        let rp = row_urls(p, row_id);
        assert forall|j: int| 0 <= j < p.len() implies p[j] == buttons[j] by {}
        if buttons[last] is Url {
            assert(r.len() > 0);
        } else {
            assert(r == rp);
            if exists|j: int| 0 <= j < buttons.len() && (#[trigger] buttons[j]) is Url {
                let j = choose|j: int| 0 <= j < buttons.len() && (#[trigger] buttons[j]) is Url;
                assert(p[j] is Url);
            }
        }
        assert forall|k: int| #![trigger r[k]] 0 <= k < r.len() implies exists|j: int|
            0 <= j < buttons.len() && (#[trigger] buttons[j]) is Url && r[k] == (MarkupUrlView {
                row_id,
                text: buttons[j]->Url_text@,
                url: buttons[j]->Url_url@,
            }) by {
            if k < rp.len() {
                assert(r[k] == rp[k]);
                let j = choose|j: int|
                    0 <= j < p.len() && (#[trigger] p[j]) is Url && rp[k] == (MarkupUrlView {
                        row_id,
                        text: p[j]->Url_text@,
                        url: p[j]->Url_url@,
                    });
                assert(buttons[j] == p[j]);
            } else {
                assert(buttons[last] is Url);
            }
        }
    }
}

/// The link buttons read from keyboard rows are exactly their URL buttons:
/// there are some if and only if a row holds a URL button, and each one
/// carries the text and target of a URL button and the index of its row.
pub proof fn lemma_rows_urls_are_url_buttons(rows: Seq<TlKeyboardRow>)
    ensures
        rows_urls(rows).len() > 0 <==> exists|i: int, j: int|
            0 <= i < rows.len() && 0 <= j < rows[i].buttons@.len() && (
            #[trigger] rows[i].buttons@[j]) is Url,
        forall|k: int|
            #![trigger rows_urls(rows)[k]]
            0 <= k < rows_urls(rows).len() ==> exists|i: int, j: int|
                0 <= i < rows.len() && 0 <= j < rows[i].buttons@.len() && (
                #[trigger] rows[i].buttons@[j]) is Url && rows_urls(rows)[k] == (MarkupUrlView {
                    row_id: i as i64,
                    text: rows[i].buttons@[j]->Url_text@,
                    url: rows[i].buttons@[j]->Url_url@,
                }),
    decreases rows.len(),
{
    if rows.len() > 0 {
        let p = rows.drop_last();
        let last = rows.len() - 1;
        lemma_rows_urls_are_url_buttons(p);
        let b = rows[last].buttons@;
        lemma_row_urls(b, last as i64);
        let r = rows_urls(rows);
        let rp = rows_urls(p);
        let rl = row_urls(b, last as i64);
        assert(r == rp + rl);
        assert forall|i: int| 0 <= i < p.len() implies p[i] == rows[i] by {}
        if exists|i: int, j: int|
            0 <= i < rows.len() && 0 <= j < rows[i].buttons@.len() && (
            #[trigger] rows[i].buttons@[j]) is Url {
            let (i, j) = choose|i: int, j: int|
                0 <= i < rows.len() && 0 <= j < rows[i].buttons@.len() && (
                #[trigger] rows[i].buttons@[j]) is Url;
            if i < last {
                assert(p[i].buttons@[j] is Url);
            } else {
                assert(b[j] is Url);
            }
        }
        if rp.len() > 0 {
            let (i, j) = choose|i: int, j: int|
                0 <= i < p.len() && 0 <= j < p[i].buttons@.len() && (
                #[trigger] p[i].buttons@[j]) is Url;
            assert(rows[i].buttons@[j] is Url);
        }
        if rl.len() > 0 {
            let j = choose|j: int| 0 <= j < b.len() && (#[trigger] b[j]) is Url;
            assert(rows[last].buttons@[j] is Url);
        }
        assert forall|k: int| #![trigger r[k]] 0 <= k < r.len() implies exists|i: int, j: int|
            0 <= i < rows.len() && 0 <= j < rows[i].buttons@.len() && (
            #[trigger] rows[i].buttons@[j]) is Url && r[k] == (MarkupUrlView {
                row_id: i as i64,
                text: rows[i].buttons@[j]->Url_text@,
                url: rows[i].buttons@[j]->Url_url@,
            }) by {
            if k < rp.len() {
                assert(r[k] == rp[k]);
                let (i, j) = choose|i: int, j: int|
                    0 <= i < p.len() && 0 <= j < p[i].buttons@.len() && (
                    #[trigger] p[i].buttons@[j]) is Url && rp[k] == (MarkupUrlView {
                        row_id: i as i64,
                        text: p[i].buttons@[j]->Url_text@,
                        url: p[i].buttons@[j]->Url_url@,
                    });
                assert(rows[i] == p[i]);
            } else {
                let k2 = k - rp.len();
                assert(r[k] == rl[k2]);
                let j = choose|j: int|
                    0 <= j < b.len() && (#[trigger] b[j]) is Url && rl[k2] == (MarkupUrlView {
                        row_id: last as i64,
                        text: b[j]->Url_text@,
                        url: b[j]->Url_url@,
                    });
                assert(rows[last].buttons@[j] == b[j]);
            }
        }
    }
}

/// The link buttons of a reply markup: there are some if and only if it is
/// an inline keyboard holding a URL button, and they are then all the URL
/// buttons read row by row.
pub proof fn lemma_markup_urls(rm: TlReplyMarkup)
    ensures
        markup_urls_view(rm) is Some <==> (rm matches TlReplyMarkup::Inline { rows } && exists|
            i: int,
            j: int,
        |
            0 <= i < rows@.len() && 0 <= j < rows@[i].buttons@.len() && (
            #[trigger] rows@[i].buttons@[j]) is Url),
        markup_urls_view(rm) matches Some(v) ==> (rm matches TlReplyMarkup::Inline { rows }
            && v == rows_urls(rows@)),
{
    if let TlReplyMarkup::Inline { rows } = rm {
        lemma_rows_urls_are_url_buttons(rows@);
    }
}

proof fn lemma_apply_attributes(m: MediaView, attrs: Seq<TlDocumentAttribute>, k: int)
    requires
        0 <= k < attrs.len(),
    ensures
        attrs[k] is Audio && (forall|j: int|
            k < j < attrs.len() ==> !(#[trigger] attrs[j] is Audio) && !(attrs[j] is Video))
            ==> apply_attributes(m, attrs).duration == attrs[k]->Audio_duration,
        attrs[k] is Video && (forall|j: int|
            k < j < attrs.len() ==> !(#[trigger] attrs[j] is Audio) && !(attrs[j] is Video))
            ==> apply_attributes(m, attrs).duration == attrs[k]->Video_duration,
        attrs[k] is Audio && (forall|j: int| k < j < attrs.len() ==> !(#[trigger] attrs[j] is Audio))
            ==> apply_attributes(m, attrs).voice == attrs[k]->Audio_voice && apply_attributes(m, attrs).title == str_or_empty(attrs[k]->Audio_title)
            && apply_attributes(m, attrs).performer == str_or_empty(attrs[k]->Audio_performer) && apply_attributes(m, attrs).waveform
            == bytes_or_empty(attrs[k]->Audio_waveform),
        attrs[k] is Video && (forall|j: int| k < j < attrs.len() ==> !(#[trigger] attrs[j] is Video))
            ==> apply_attributes(m, attrs).round_message == attrs[k]->Video_round_message && apply_attributes(m, attrs).supports_streaming
            == attrs[k]->Video_supports_streaming,
        (forall|j: int|
            k < j < attrs.len() ==> !(#[trigger] attrs[j] is Audio) && !(attrs[j] is Video)
                && !(attrs[j] is ImageSize)) ==> (attrs[k] is Audio ==> apply_attributes(m, attrs).media_type
            == MediaType::Audio) && (attrs[k] is Video ==> apply_attributes(m, attrs).media_type == MediaType::Video) && (
        attrs[k] is ImageSize ==> apply_attributes(m, attrs).media_type == MediaType::File),
        attrs[k] is Filename && (forall|j: int| k < j < attrs.len() ==> !(#[trigger] attrs[j] is Filename))
            ==> apply_attributes(m, attrs).file_name == attrs[k]->file_name@,
        attrs[k] is Animated ==> apply_attributes(m, attrs).animated,
        attrs[k] is HasStickers ==> apply_attributes(m, attrs).has_stickers,
    decreases attrs.len(),
{
    let last = attrs.len() - 1;
    if k < last {
        let p = attrs.drop_last();
        assert forall|j: int| 0 <= j < p.len() implies p[j] == attrs[j] by {}
        lemma_apply_attributes(m, p, k);
        assert(apply_attributes(m, attrs) == apply_attribute(apply_attributes(m, p), attrs[last]));
    }
}

/// What a document's attributes leave in its media record, attribute by
/// attribute: an audio or video attribute with no later one of either kind
/// gives the duration; an audio attribute with no later audio one gives
/// the voice flag, title, performer and waveform; a video attribute with no
/// later video one gives the round-message and streaming flags; the last of
/// the image-size, video and audio attributes makes the media a file, a
/// video or an audio; the last file-name attribute gives the file name; an
/// animated or has-stickers attribute anywhere sets its flag.
pub proof fn lemma_document_attributes(d: TlDocumentData, ttl: i32, k: int)
    requires
        0 <= k < d.attributes@.len(),
    ensures
        d.attributes@[k] is Audio && (forall|j: int|
            k < j < d.attributes@.len() ==> !(#[trigger] d.attributes@[j] is Audio) && !(d.attributes@[j] is Video))
            ==> document_media_view(d, ttl).duration == d.attributes@[k]->Audio_duration,
        d.attributes@[k] is Video && (forall|j: int|
            k < j < d.attributes@.len() ==> !(#[trigger] d.attributes@[j] is Audio) && !(d.attributes@[j] is Video))
            ==> document_media_view(d, ttl).duration == d.attributes@[k]->Video_duration,
        d.attributes@[k] is Audio && (forall|j: int| k < j < d.attributes@.len() ==> !(#[trigger] d.attributes@[j] is Audio))
            ==> document_media_view(d, ttl).voice == d.attributes@[k]->Audio_voice && document_media_view(d, ttl).title == str_or_empty(d.attributes@[k]->Audio_title)
            && document_media_view(d, ttl).performer == str_or_empty(d.attributes@[k]->Audio_performer) && document_media_view(d, ttl).waveform
            == bytes_or_empty(d.attributes@[k]->Audio_waveform),
        d.attributes@[k] is Video && (forall|j: int| k < j < d.attributes@.len() ==> !(#[trigger] d.attributes@[j] is Video))
            ==> document_media_view(d, ttl).round_message == d.attributes@[k]->Video_round_message && document_media_view(d, ttl).supports_streaming
            == d.attributes@[k]->Video_supports_streaming,
        (forall|j: int|
            k < j < d.attributes@.len() ==> !(#[trigger] d.attributes@[j] is Audio) && !(d.attributes@[j] is Video)
                && !(d.attributes@[j] is ImageSize)) ==> (d.attributes@[k] is Audio ==> document_media_view(d, ttl).media_type
            == MediaType::Audio) && (d.attributes@[k] is Video ==> document_media_view(d, ttl).media_type == MediaType::Video) && (
        d.attributes@[k] is ImageSize ==> document_media_view(d, ttl).media_type == MediaType::File),
        d.attributes@[k] is Filename && (forall|j: int| k < j < d.attributes@.len() ==> !(#[trigger] d.attributes@[j] is Filename))
            ==> document_media_view(d, ttl).file_name == d.attributes@[k]->file_name@,
        d.attributes@[k] is Animated ==> document_media_view(d, ttl).animated,
        d.attributes@[k] is HasStickers ==> document_media_view(d, ttl).has_stickers,
{
    lemma_apply_attributes(document_base(d, ttl), d.attributes@, k);
}

/// The remaining fields of a message's record: the sender id is the
/// message's own id, absent numbers are 0, the reply is not kept, and a
/// forward header is copied field by field (absent numbers 0, absent texts
/// empty).
pub proof fn lemma_message_other_fields(m: TlMessageData)
    ensures
        full_message_view(m).from_id == m.id,
        full_message_view(m).via_bot_id == (match m.via_bot_id {
            Some(v) => v,
            None => 0i32,
        }),
        full_message_view(m).reply_to_msg_id == (match m.reply_to_msg_id {
            Some(v) => v,
            None => 0i32,
        }),
        full_message_view(m).edit_date == (match m.edit_date {
            Some(v) => v,
            None => 0i32,
        }),
        !full_message_view(m).has_replay,
        m.fwd_from is None ==> full_message_view(m).forward is None,
        m.fwd_from matches Some(f) ==> full_message_view(m).forward == Some(
            MsgForwardedView {
                from_id: match f.from_id {
                    Some(v) => v,
                    None => 0i32,
                },
                from_name: match f.from_name {
                    Some(t) => t@,
                    None => Seq::<char>::empty(),
                },
                date: f.date,
                channel_id: match f.channel_id {
                    Some(v) => v,
                    None => 0i32,
                },
                channel_post: match f.channel_post {
                    Some(v) => v,
                    None => 0i32,
                },
                post_author: match f.post_author {
                    Some(t) => t@,
                    None => Seq::<char>::empty(),
                },
                saved_from_msg_id: match f.saved_from_msg_id {
                    Some(v) => v,
                    None => 0i32,
                },
            },
        ),
{
}

/// The media record of a photo: an image with the photo's id, access hash,
/// file reference, date, data center and sticker flag, a ".jpg" extension,
/// and its largest stored size: no stored size is larger, and unless it
/// stays at size 0 it is one of the stored sizes, with its type and
/// dimensions.
pub proof fn lemma_photo_media_fields(p: TlPhotoData)
    ensures
        photo_media_view(p).media_type == MediaType::Image,
        photo_media_view(p).id == p.id,
        photo_media_view(p).access_hash == p.access_hash,
        photo_media_view(p).file_reference == p.file_reference@,
        photo_media_view(p).date == p.date,
        photo_media_view(p).dc_id == p.dc_id,
        photo_media_view(p).has_sticker == p.has_stickers,
        photo_media_view(p).file_extention == ".jpg"@,
        forall|k: int|
            0 <= k < p.sizes@.len() && (#[trigger] p.sizes@[k]) is Size ==> p.sizes@[k]->size
                <= photo_media_view(p).size,
        photo_media_view(p).size == 0 || exists|k: int|
            0 <= k < p.sizes@.len() && (#[trigger] p.sizes@[k]) is Size && photo_media_view(p).size
                == p.sizes@[k]->size && photo_media_view(p).w == p.sizes@[k]->w
                && photo_media_view(p).h == p.sizes@[k]->h && photo_media_view(p).photo_size_type
                == p.sizes@[k]->size_type@,
{
    lemma_pick_largest_is_max(p.sizes@, no_pick());
}

/// The thumbnail record of a video: none when it lists no sizes; else the
/// largest stored size, which no stored size exceeds and which, unless it
/// stays at size 0, is one of them.
pub proof fn lemma_video_thumb_fields(sizes: Seq<TlPhotoSize>)
    ensures
        video_thumb(sizes) is None <==> sizes.len() == 0,
        video_thumb(sizes) matches Some(t) ==> (forall|k: int|
            0 <= k < sizes.len() && (#[trigger] sizes[k]) is Size ==> sizes[k]->size <= t.size)
            && (t.size == 0 || exists|k: int|
            0 <= k < sizes.len() && (#[trigger] sizes[k]) is Size && t.size == sizes[k]->size
                && t.w == sizes[k]->w && t.h == sizes[k]->h && t.size_type == sizes[k]->size_type@),
{
    lemma_pick_largest_is_max(sizes, no_pick());
}

/// The preview of a message: only a loaded web page gives one, and it
/// copies the page's id, addresses, hash and texts (absent texts empty).
pub proof fn lemma_webpage_fields(mm: TlMessageMedia)
    ensures
        message_webpage_view(mm) is Some <==> (mm matches TlMessageMedia::WebPage(w) && w is Page),
        mm matches TlMessageMedia::WebPage(TlWebPage::Page(v)) ==> ({
            let w = message_webpage_view(mm)->0;
            &&& w.id == v.id
            &&& w.url == v.url@
            &&& w.display_url == v.display_url@
            &&& w.hash == v.hash
            &&& w.title == (match v.title {
                Some(t) => t@,
                None => Seq::<char>::empty(),
            })
            &&& w.description == (match v.description {
                Some(t) => t@,
                None => Seq::<char>::empty(),
            })
            &&& w.site_name == (match v.site_name {
                Some(t) => t@,
                None => Seq::<char>::empty(),
            })
            &&& w.page_type == (match v.page_type {
                Some(t) => t@,
                None => Seq::<char>::empty(),
            })
            &&& (v.photo is None ==> w.photo is None)
        }),
{
}

proof fn lemma_attributes_keep_fields(m: MediaView, attrs: Seq<TlDocumentAttribute>)
    ensures
        apply_attributes(m, attrs).id == m.id,
        apply_attributes(m, attrs).access_hash == m.access_hash,
        apply_attributes(m, attrs).file_reference == m.file_reference,
        apply_attributes(m, attrs).date == m.date,
        apply_attributes(m, attrs).dc_id == m.dc_id,
        apply_attributes(m, attrs).size == m.size,
        apply_attributes(m, attrs).mime_type == m.mime_type,
        apply_attributes(m, attrs).file_extention == m.file_extention,
        apply_attributes(m, attrs).ttl_seconds == m.ttl_seconds,
        apply_attributes(m, attrs).video_thumbs == m.video_thumbs,
        apply_attributes(m, attrs).video_thumbs_rec == m.video_thumbs_rec,
    decreases attrs.len(),
{
    if attrs.len() > 0 {
        lemma_attributes_keep_fields(m, attrs.drop_last());
    }
}

/// The media record of a message's media: photos that are not empty and
/// every document give one, other media none. The record keeps the
/// message's time to live (0 when absent); a stored document's record
/// keeps the document's id, access hash, file reference, date, data
/// center, size and MIME type, and its extension is the one chosen for
/// that MIME type.
pub proof fn lemma_message_media_fields(mm: TlMessageMedia)
    ensures
        message_media_view(mm) is Some <==> (mm is Document || mm matches TlMessageMedia::Photo {
            photo: Some(TlPhoto::Photo(_)),
            ..
        }),
        mm matches TlMessageMedia::Photo { photo: Some(TlPhoto::Photo(p)), ttl_seconds }
            ==> message_media_view(mm)->0.ttl_seconds == (match ttl_seconds {
            Some(t) => t,
            None => 0i32,
        }) && message_media_view(mm)->0.id == p.id,
        mm matches TlMessageMedia::Document { document, ttl_seconds } ==> message_media_view(
            mm,
        )->0.ttl_seconds == (match ttl_seconds {
            Some(t) => t,
            None => 0i32,
        }),
        mm matches TlMessageMedia::Document { document: Some(TlDocument::Document(d)), .. } ==> {
            let v = message_media_view(mm)->0;
            &&& v.id == d.id
            &&& v.access_hash == d.access_hash
            &&& v.file_reference == d.file_reference@
            &&& v.date == d.date
            &&& v.dc_id == d.dc_id
            &&& v.size == d.size
            &&& v.mime_type == d.mime_type@
            &&& v.file_extention == extension_for(d.mime_type@, mime_db_extension(d.mime_type@))
        },
{
    if let TlMessageMedia::Document { document: Some(TlDocument::Document(d)), ttl_seconds } = mm {
        let t = match ttl_seconds {
            Some(t) => t,
            None => 0i32,
        };
        lemma_attributes_keep_fields(document_base(d, t), d.attributes@);
    }
}

/// The channel records of a history are the channels among its chats,
/// in order, each converted; every other chat is skipped.
pub proof fn lemma_channel_records_in_order(chats: Seq<TlChat>)
    ensures
        chats_view(chats) == chats.filter(|x: TlChat| x is Channel).map_values(|x: TlChat| chat_channel_view(x->Channel_0)),
    decreases chats.len(),
{
    reveal(Seq::filter);
    if chats.len() > 0 {
        let p = chats.drop_last();
        lemma_channel_records_in_order(p);
        let fp = p.filter(|x: TlChat| x is Channel);
        let fx = chats.filter(|x: TlChat| x is Channel);
        assert(fx == (if ({ let x = chats.last(); x is Channel }) { fp.push(chats.last()) } else { fp }));
        assert(fp.push(chats.last()).map_values(|x: TlChat| chat_channel_view(x->Channel_0)) =~= fp.map_values(
            |x: TlChat| chat_channel_view(x->Channel_0),
        ).push({ let x = chats.last(); chat_channel_view(x->Channel_0) }));
    }
}

/// The message records of a history are its ordinary messages, in order,
/// each converted in full; empty and service messages are skipped.
pub proof fn lemma_message_records_in_order(messages: Seq<TlMessage>)
    ensures
        channel_msgs_view(messages) == messages.filter(|x: TlMessage| x is Message).map_values(|x: TlMessage| full_message_view(x->Message_0)),
    decreases messages.len(),
{
    reveal(Seq::filter);
    if messages.len() > 0 {
        let p = messages.drop_last();
        lemma_message_records_in_order(p);
        let fp = p.filter(|x: TlMessage| x is Message);
        let fx = messages.filter(|x: TlMessage| x is Message);
        assert(fx == (if ({ let x = messages.last(); x is Message }) { fp.push(messages.last()) } else { fp }));
        assert(fp.push(messages.last()).map_values(|x: TlMessage| full_message_view(x->Message_0)) =~= fp.map_values(
            |x: TlMessage| full_message_view(x->Message_0),
        ).push({ let x = messages.last(); full_message_view(x->Message_0) }));
    }
}

/// The link targets of a message's entities are those of its text links,
/// in order; every other entity is skipped.
pub proof fn lemma_text_urls_in_order(entities: Seq<TlMessageEntity>)
    ensures
        text_urls(entities) == entities.filter(|x: TlMessageEntity| x is TextUrl).map_values(|x: TlMessageEntity| x->url@),
    decreases entities.len(),
{
    reveal(Seq::filter);
    if entities.len() > 0 {
        let p = entities.drop_last();
        lemma_text_urls_in_order(p);
        let fp = p.filter(|x: TlMessageEntity| x is TextUrl);
        let fx = entities.filter(|x: TlMessageEntity| x is TextUrl);
        assert(fx == (if ({ let x = entities.last(); x is TextUrl }) { fp.push(entities.last()) } else { fp }));
        assert(fp.push(entities.last()).map_values(|x: TlMessageEntity| x->url@) =~= fp.map_values(
            |x: TlMessageEntity| x->url@,
        ).push({ let x = entities.last(); x->url@ }));
    }
}

/// The record of a channel listed with a history copies the channel's id,
/// title, username (empty when it has none), access hash (0 when it has
/// none), date, version and flags, and is not marked as full.
pub proof fn lemma_chat_channel_fields(ch: crate::tl_model::TlChannelData)
    ensures
        chat_channel_view(ch).id == ch.id,
        chat_channel_view(ch).title == ch.title@,
        chat_channel_view(ch).username == (match ch.username {
            Some(u) => u@,
            None => Seq::<char>::empty(),
        }),
        chat_channel_view(ch).access_hash == (match ch.access_hash {
            Some(a) => a,
            None => 0i64,
        }),
        chat_channel_view(ch).date == ch.date,
        chat_channel_view(ch).version == ch.version,
        chat_channel_view(ch).restricted == ch.restricted,
        chat_channel_view(ch).megagroup == ch.megagroup,
        !chat_channel_view(ch).full_data,
{
}

} // verus!
