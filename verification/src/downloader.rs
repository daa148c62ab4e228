//! Downloading media: the requests to send, and the decisions taken on each
//! part of a file that comes back.

use vstd::prelude::*;
use crate::errors::GenErr;
use crate::tl_model::TlUploadFile;
use crate::types::{copy_bytes, default_media_view, Media, MediaThumb, MediaType, MediaView};

verus! {

/// The most bytes asked for in one request.
pub const FILE_CHUNK_LIMIT: i32 = 524288;

/// Where the file to download is.
#[derive(Clone, Debug)]
pub enum FileLocationRequest {
    /// A photo (`inputPhotoFileLocation`).
    Photo { id: i64, access_hash: i64, file_reference: Vec<u8>, thumb_size: String },
    /// A document (`inputDocumentFileLocation`).
    Document { id: i64, access_hash: i64, file_reference: Vec<u8>, thumb_size: String },
}

/// A request for a part of a file (`upload.getFile`).
#[derive(Clone, Debug)]
pub struct GetFileRequest {
    pub precise: bool,
    pub cdn_supported: bool,
    pub location: FileLocationRequest,
    pub offset: i32,
    pub limit: i32,
}

/// Whether `r` asks for the file of `m` at `offset`, as a photo or as a
/// document, `FILE_CHUNK_LIMIT` bytes at most.
pub open spec fn requests_media(r: GetFileRequest, m: MediaView, photo: bool, offset: i32) -> bool {
    &&& !r.precise
    &&& !r.cdn_supported
    &&& r.offset == offset
    &&& r.limit == FILE_CHUNK_LIMIT
    &&& match r.location {
        FileLocationRequest::Photo { id, access_hash, file_reference, thumb_size } => {
            &&& photo
            &&& id == m.id
            &&& access_hash == m.access_hash
            &&& file_reference@ == m.file_reference
            &&& thumb_size@ == m.photo_size_type
        },
        FileLocationRequest::Document { id, access_hash, file_reference, thumb_size } => {
            &&& !photo
            &&& id == m.id
            &&& access_hash == m.access_hash
            &&& file_reference@ == m.file_reference
            &&& thumb_size@ == m.photo_size_type
        },
    }
}

/// The request for an image: the whole photo in one part.
pub fn image_file_request(m: &Media) -> (r: GetFileRequest)
    ensures
        requests_media(r, m@, true, 0),
{
    GetFileRequest {
        precise: false,
        cdn_supported: false,
        location: FileLocationRequest::Photo {
            id: m.id,
            access_hash: m.access_hash,
            file_reference: copy_bytes(&m.file_reference),
            thumb_size: m.photo_size_type.clone(),
        },
        offset: 0,
        limit: FILE_CHUNK_LIMIT,
    }
}

/// The request for the part of a document from `offset` on.
pub fn document_file_request(m: &Media, offset: i32) -> (r: GetFileRequest)
    ensures
        requests_media(r, m@, false, offset),
{
    GetFileRequest {
        precise: false,
        cdn_supported: false,
        location: FileLocationRequest::Document {
            id: m.id,
            access_hash: m.access_hash,
            file_reference: copy_bytes(&m.file_reference),
            thumb_size: m.photo_size_type.clone(),
        },
        offset,
        limit: FILE_CHUNK_LIMIT,
    }
}

/// The bytes of an image's answer: those of a file, none for a redirect to
/// a content delivery network.
pub fn image_bytes(res: TlUploadFile) -> (out: Vec<u8>)
    ensures
        out@ == match res {
            TlUploadFile::File { bytes } => bytes@,
            TlUploadFile::CdnRedirect => Seq::empty(),
        },
{
    match res {
        TlUploadFile::File { bytes } => bytes,
        TlUploadFile::CdnRedirect => Vec::new(),
    }
}

/// How a media is downloaded.
#[derive(Clone, Copy, Debug, PartialEq, Eq, Structural)]
pub enum DownloadKind {
    /// In one request, as a photo.
    Image,
    /// Part by part, as a document.
    Document,
}

/// How a media of kind `t` is downloaded; media of unknown kind cannot be.
pub fn download_kind(t: MediaType) -> (r: Result<DownloadKind, GenErr>)
    ensures
        t == MediaType::Image ==> r == Ok::<DownloadKind, GenErr>(DownloadKind::Image),
        t == MediaType::Unknown ==> (r matches Err(e) && e is Download),
        t != MediaType::Image && t != MediaType::Unknown ==> r == Ok::<DownloadKind, GenErr>(
            DownloadKind::Document,
        ),
{
    match t {
        MediaType::Image => Ok(DownloadKind::Image),
        MediaType::Video | MediaType::Audio | MediaType::File | MediaType::ImageFile => Ok(
            DownloadKind::Document,
        ),
        MediaType::Unknown => Err(GenErr::Download),
    }
}

/// The media used to fetch a video thumbnail as an image.
pub open spec fn thumb_media_view(t: crate::types::MediaThumbView) -> MediaView {
    MediaView {
        dep_volume_id: t.dep_volume_id,
        dep_local_id: t.dep_local_id,
        w: t.w,
        h: t.h,
        size: t.size,
        media_type: MediaType::Image,
        ..default_media_view()
    }
}

/// A video thumbnail as an image media to download.
pub fn thumb_as_media(t: &MediaThumb) -> (m: Media)
    ensures
        m@ == thumb_media_view(t@),
{
    let mut m = Media::default();
    m.dep_volume_id = t.dep_volume_id;
    m.dep_local_id = t.dep_local_id;
    m.w = t.w;
    m.h = t.h;
    m.size = t.size;
    m.media_type = MediaType::Image;
    m
}

// ------------------------------------------------------------ documents

/// What came back for one part of a document.
#[derive(Debug)]
pub enum FilePartOutcome {
    /// The bytes of the part.
    Part(Vec<u8>),
    /// A redirect to a content delivery network.
    CdnRedirect,
    /// The request failed.
    Failed,
}

/// The value of a `FilePartOutcome`.
pub ghost enum FilePartView {
    Part(Seq<u8>),
    CdnRedirect,
    Failed,
}

impl View for FilePartOutcome {
    type V = FilePartView;

    open spec fn view(&self) -> FilePartView {
        match self {
            FilePartOutcome::Part(b) => FilePartView::Part(b@),
            FilePartOutcome::CdnRedirect => FilePartView::CdnRedirect,
            FilePartOutcome::Failed => FilePartView::Failed,
        }
    }
}

/// A document being downloaded part by part.
#[derive(Debug)]
pub struct FileDownload {
    /// Where the next part starts.
    pub offset: i32,
    /// The bytes received so far.
    pub buffer: Vec<u8>,
    /// Whether no more parts are asked for.
    pub done: bool,
}

/// The value of a `FileDownload`.
pub ghost struct FileDownloadView {
    pub offset: i32,
    pub buffer: Seq<u8>,
    pub done: bool,
}

impl View for FileDownload {
    type V = FileDownloadView;

    open spec fn view(&self) -> FileDownloadView {
        FileDownloadView { offset: self.offset, buffer: self.buffer@, done: self.done }
    }
}

/// Whether a part is full: it holds as many bytes as were asked for
/// (its length is compared as an `i32`).
pub open spec fn is_full_part(bytes: Seq<u8>) -> bool {
    (bytes.len() as i32) == FILE_CHUNK_LIMIT
}

/// What the download becomes once `ev` came back: a part's bytes are kept;
/// after a full part the next part is asked for; anything else ends it.
pub open spec fn download_step(s: FileDownloadView, ev: FilePartView) -> FileDownloadView {
    match ev {
        FilePartView::Part(bytes) => if is_full_part(bytes) {
            FileDownloadView {
                offset: (s.offset + FILE_CHUNK_LIMIT) as i32,
                buffer: s.buffer + bytes,
                done: false,
            }
        } else {
            FileDownloadView { offset: s.offset, buffer: s.buffer + bytes, done: true }
        },
        _ => FileDownloadView { done: true, ..s },
    }
}

/// Whether the next offset fits in an `i32` after `ev`.
pub open spec fn step_fits(s: FileDownloadView, ev: FilePartView) -> bool {
    ev matches FilePartView::Part(bytes) && is_full_part(bytes) ==> s.offset + FILE_CHUNK_LIMIT
        <= i32::MAX
}

impl FileDownload {
    /// A download that has received nothing and asks for the first part.
    pub fn new() -> (d: FileDownload)
        ensures
            d@ == (FileDownloadView { offset: 0, buffer: Seq::empty(), done: false }),
    {
        FileDownload { offset: 0, buffer: Vec::new(), done: false }
    }

    /// The request for the next part of the document `m`.
    pub fn next_request(&self, m: &Media) -> (r: GetFileRequest)
        ensures
            requests_media(r, m@, false, self.offset),
    {
        document_file_request(m, self.offset)
    }

    /// Takes in what came back for the last request.
    pub fn step(&mut self, ev: FilePartOutcome)
        requires
            !old(self).done,
            step_fits(old(self)@, ev@),
        ensures
            final(self)@ == download_step(old(self)@, ev@),
    {
        match ev {
            FilePartOutcome::Part(bytes) => {
                let len = bytes.len() as i32;
                let mut bytes = bytes;
                self.buffer.append(&mut bytes);
                if len == FILE_CHUNK_LIMIT {
                    self.offset = self.offset + FILE_CHUNK_LIMIT;
                } else {
                    self.done = true;
                }
            },
            _ => {
                self.done = true;
            },
        }
    }

    /// The downloaded bytes; a download that received no byte failed.
    pub fn finish(self) -> (r: Result<Vec<u8>, GenErr>)
        ensures
            self.buffer@.len() == 0 ==> (r matches Err(e) && e is Download),
            self.buffer@.len() > 0 ==> (r matches Ok(b) && b@ == self.buffer@),
    {
        if self.buffer.len() == 0 {
            return Err(GenErr::Download);
        }
        Ok(self.buffer)
    }
}

/// While a download goes on, the offset it asks for next is the number of
/// bytes it received (parts shorter than 2^31 bytes).
pub proof fn lemma_download_offset_tracks_bytes(s: FileDownloadView, ev: FilePartView)
    requires
        !s.done,
        s.buffer.len() == s.offset,
        step_fits(s, ev),
        ev matches FilePartView::Part(bytes) ==> bytes.len() <= i32::MAX,
    ensures
        !download_step(s, ev).done ==> download_step(s, ev).buffer.len() == download_step(
            s,
            ev,
        ).offset,
{
}

/// The steps of a download over the answers `evs`, up to the one that ends it.
pub open spec fn download_run(s: FileDownloadView, evs: Seq<FilePartView>) -> FileDownloadView
    decreases evs.len(),
{
    if evs.len() == 0 || s.done {
        s
    } else {
        download_run(download_step(s, evs[0]), evs.drop_first())
    }
}

/// The bytes of the parts among `evs`, in order.
pub open spec fn parts_bytes(evs: Seq<FilePartView>) -> Seq<u8>
    decreases evs.len(),
{
    if evs.len() == 0 {
        Seq::empty()
    } else {
        let rest = parts_bytes(evs.drop_first());
        match evs[0] {
            FilePartView::Part(b) => b + rest,
            _ => rest,
        }
    }
}

/// Whether `ev` is a full part.
pub open spec fn is_full_answer(ev: FilePartView) -> bool {
    ev matches FilePartView::Part(bytes) && is_full_part(bytes)
}

/// A download keeps the bytes of every part it takes in, in order: driven
/// by full parts and then any last answer, it holds what it had followed by
/// the bytes of all their parts.
pub proof fn lemma_download_keeps_parts(s: FileDownloadView, evs: Seq<FilePartView>)
    requires
        !s.done,
        forall|i: int| 0 <= i < evs.len() - 1 ==> is_full_answer(#[trigger] evs[i]),
    ensures
        download_run(s, evs).buffer == s.buffer + parts_bytes(evs),
    decreases evs.len(),
{
    if evs.len() == 0 {
        assert(s.buffer + parts_bytes(evs) =~= s.buffer);
    } else {
        let t = download_step(s, evs[0]);
        let rest = evs.drop_first();
        if rest.len() == 0 {
            assert(download_run(t, rest) == t);
            assert(parts_bytes(rest) == Seq::<u8>::empty());
            match evs[0] {
                FilePartView::Part(b) => {
                    assert(parts_bytes(evs) =~= b);
                },
                _ => {
                    assert(parts_bytes(evs) =~= Seq::<u8>::empty());
                    assert(s.buffer + parts_bytes(evs) =~= s.buffer);
                },
            }
        } else {
            assert(is_full_answer(evs[0]));
            assert(!t.done);
            assert forall|i: int| 0 <= i < rest.len() - 1 implies is_full_answer(
                #[trigger] rest[i],
            ) by {
                assert(rest[i] == evs[i + 1]);
            }
            lemma_download_keeps_parts(t, rest);
            match evs[0] {
                FilePartView::Part(b) => {
                    assert(s.buffer + parts_bytes(evs) =~= (s.buffer + b) + parts_bytes(rest));
                },
                _ => {},
            }
        }
    }
}

/// One step of a download: a part of 524288 bytes is kept and the next
/// request starts 524288 bytes further on; a shorter part is kept and ends
/// the download where it is; a redirect or a failure ends it with nothing
/// added.
pub proof fn lemma_download_step_decisions(s: FileDownloadView, ev: FilePartView)
    ensures
        ev matches FilePartView::Part(b) ==> (b.len() == 524288 && s.offset + 524288 <= i32::MAX
            ==> !download_step(s, ev).done && download_step(s, ev).offset == s.offset + 524288
            && download_step(s, ev).buffer == s.buffer + b),
        ev matches FilePartView::Part(b) ==> (b.len() < 524288 ==> download_step(s, ev).done
            && download_step(s, ev).offset == s.offset && download_step(s, ev).buffer == s.buffer
            + b),
        !(ev is Part) ==> download_step(s, ev).done && download_step(s, ev).offset == s.offset
            && download_step(s, ev).buffer == s.buffer,
{
}

/// A video thumbnail fetched as an image keeps the thumbnail's location,
/// dimensions and size, and nothing else.
pub proof fn lemma_thumb_media_fields(t: crate::types::MediaThumbView)
    ensures
        thumb_media_view(t).media_type == MediaType::Image,
        thumb_media_view(t).dep_volume_id == t.dep_volume_id,
        thumb_media_view(t).dep_local_id == t.dep_local_id,
        thumb_media_view(t).w == t.w,
        thumb_media_view(t).h == t.h,
        thumb_media_view(t).size == t.size,
        thumb_media_view(t).id == 0,
        thumb_media_view(t).file_reference == Seq::<u8>::empty(),
{
}

} // verus!
