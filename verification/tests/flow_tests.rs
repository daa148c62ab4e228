use play_gram::crawl::{after_username_lookup, channel_username_record, UsernameLookupAction};
use play_gram::downloader::{
    download_kind, image_bytes, image_file_request, thumb_as_media, DownloadKind, FileDownload,
    FileLocationRequest, FilePartOutcome, FILE_CHUNK_LIMIT,
};
use play_gram::errors::{AuthorizationFailure, GenErr, InvocationFailure, RpcErr};
use play_gram::tg::{channel_from_resolved_chats, channel_info_from_full_chat, process_channel_msgs};
use play_gram::tl_model::{TlChannelData, TlChannelFullData, TlChat, TlChatFull, TlMessages, TlMessagesChatFull, TlUploadFile};
use play_gram::types::{ChannelByUsernameResult, ChannelInfo, Media, MediaThumb, MediaType};

fn rpc(code: i32, name: &str) -> GenErr {
    GenErr::TGRPC(RpcErr { code, name: name.to_string(), value: None })
}

fn channel(id: i32) -> TlChannelData {
    TlChannelData { id, title: "T".to_string(), username: Some("chan".to_string()), access_hash: None, date: 3, version: 4, restricted: true, megagroup: false }
}

#[test]
fn not_found_and_free_usernames() {
    assert!(rpc(400, "CHANNEL_INVALID").is_tg_not_found());
    assert!(!rpc(400, "CHANNEL_INVALID").is_tg_username_free());
    assert!(rpc(400, "USERNAME_NOT_OCCUPIED").is_tg_username_free());
    assert!(rpc(400, "USERNAME_NOT_OCCUPIED").is_tg_not_found());
    assert!(!rpc(401, "USERNAME_NOT_OCCUPIED").is_tg_username_free());
    assert!(!GenErr::TGConnection.is_tg_not_found());
}

#[test]
fn error_mapping() {
    assert!(matches!(GenErr::from(InvocationFailure::Other), GenErr::TGConnection));
    assert!(matches!(GenErr::from(InvocationFailure::Rpc(RpcErr { code: 420, name: "FLOOD".into(), value: Some(3) })), GenErr::TGRPC(r) if r.code == 420));
    assert!(matches!(GenErr::from(AuthorizationFailure::Invocation(InvocationFailure::Other)), GenErr::TGConnection));
    assert!(matches!(GenErr::from(AuthorizationFailure::Io), GenErr::TGAuth(AuthorizationFailure::Io)));
    assert!(matches!(GenErr::from(AuthorizationFailure::Gen), GenErr::TGAuth(AuthorizationFailure::Gen)));
}

#[test]
fn error_variants_exist() {
    let all = vec![GenErr::DB("x".into()), GenErr::Io, GenErr::TGConverter, GenErr::JSON("y".into()), GenErr::Download];
    assert!(all.iter().all(|e| !e.is_tg_not_found()));
}

#[test]
fn history_of_other_kind_is_empty() {
    let h = process_channel_msgs(&TlMessages::Other);
    assert!(h.msgs.is_empty() && h.channels.is_empty() && h.urls.is_empty() && h.users.is_empty());
}

#[test]
fn history_of_channel() {
    let h = process_channel_msgs(&TlMessages::ChannelMessages { messages: vec![], chats: vec![TlChat::Channel(channel(1))] });
    assert_eq!(h.channels.len(), 1);
}

#[test]
fn full_channel_info() {
    let full = TlMessagesChatFull {
        full_chat: TlChatFull::ChannelFull(TlChannelFullData { id: 1, participants_count: Some(250), read_inbox_max_id: 7, pts: 8 }),
        chats: vec![TlChat::Channel(channel(2))],
    };
    let ci = channel_info_from_full_chat(&full).unwrap();
    assert_eq!(ci.id, 2);
    assert_eq!(ci.members_count, 250);
    assert_eq!((ci.pts, ci.read_inbox_max_id), (8, 7));
    assert_eq!(ci.username, "chan");
    assert!(ci.full_data && ci.restricted);
    let two = TlMessagesChatFull { full_chat: TlChatFull::Other, chats: vec![TlChat::Other, TlChat::Other] };
    assert!(matches!(channel_info_from_full_chat(&two), Err(GenErr::TGConverter)));
    let other = TlMessagesChatFull { full_chat: TlChatFull::Other, chats: vec![TlChat::Other] };
    assert!(!channel_info_from_full_chat(&other).unwrap().full_data);
}

#[test]
fn resolved_username() {
    let r = channel_from_resolved_chats(&vec![TlChat::Other, TlChat::Channel(channel(5)), TlChat::Channel(channel(6))]).unwrap();
    assert_eq!(r.id, 5);
    assert_eq!(r.photo, 0);
    assert_eq!(r.access_hash, 0);
    assert!(matches!(channel_from_resolved_chats(&vec![TlChat::Other]), Err(GenErr::TGConverter)));
}

#[test]
fn crawl_decisions() {
    let found: Result<ChannelByUsernameResult, GenErr> = Ok(ChannelByUsernameResult { id: 3, access_hash: 4, ..Default::default() });
    assert!(matches!(after_username_lookup("u", &found, 9), UsernameLookupAction::FetchChannelInfo { channel_id: 3, access_hash: 4 }));
    match after_username_lookup("u", &Err(rpc(400, "USERNAME_NOT_OCCUPIED")), 9) {
        UsernameLookupAction::Save(d) => {
            assert_eq!(d.username, "u");
            assert!(!d.taken);
            assert_eq!(d.last_checked, 9);
            assert_eq!(d.channel_id, 0);
        }
        _ => panic!("expected a record"),
    }
    match after_username_lookup("p", &Err(GenErr::TGConverter), 1) {
        UsernameLookupAction::Save(d) => assert!(d.taken && d.channel_info.is_none()),
        _ => panic!("expected a record"),
    }
    assert!(matches!(after_username_lookup("u", &Err(GenErr::TGConnection), 9), UsernameLookupAction::Nothing));
    assert!(matches!(after_username_lookup("u", &Err(rpc(400, "OTHER")), 9), UsernameLookupAction::Nothing));
}

#[test]
fn channel_record() {
    let mut info = ChannelInfo::default();
    info.id = 8;
    info.username = "name".to_string();
    let d = channel_username_record(info, 2);
    assert_eq!(d.username, "name");
    assert_eq!(d.channel_id, 8);
    assert!(d.taken);
    assert_eq!(d.channel_info.unwrap().id, 8);
}

#[test]
fn download_kinds() {
    assert_eq!(download_kind(MediaType::Image).unwrap(), DownloadKind::Image);
    assert_eq!(download_kind(MediaType::Video).unwrap(), DownloadKind::Document);
    assert_eq!(download_kind(MediaType::ImageFile).unwrap(), DownloadKind::Document);
    assert!(matches!(download_kind(MediaType::Unknown), Err(GenErr::Download)));
}

#[test]
fn image_request_and_bytes() {
    let mut m = Media::default();
    m.id = 1;
    m.photo_size_type = "x".to_string();
    let r = image_file_request(&m);
    assert_eq!((r.offset, r.limit), (0, FILE_CHUNK_LIMIT));
    assert!(matches!(r.location, FileLocationRequest::Photo { id: 1, ref thumb_size, .. } if thumb_size == "x"));
    assert_eq!(image_bytes(TlUploadFile::File { bytes: vec![4, 5] }), vec![4, 5]);
    assert!(image_bytes(TlUploadFile::CdnRedirect).is_empty());
}

#[test]
fn document_download_in_parts() {
    let m = Media::default();
    let mut d = FileDownload::new();
    assert_eq!(d.next_request(&m).offset, 0);
    d.step(FilePartOutcome::Part(vec![1u8; FILE_CHUNK_LIMIT as usize]));
    assert!(!d.done);
    assert_eq!(d.offset, FILE_CHUNK_LIMIT);
    assert_eq!(d.next_request(&m).offset, FILE_CHUNK_LIMIT);
    d.step(FilePartOutcome::Part(vec![2u8; 10]));
    assert!(d.done);
    let bytes = d.finish().unwrap();
    assert_eq!(bytes.len(), FILE_CHUNK_LIMIT as usize + 10);
    assert_eq!(bytes[bytes.len() - 1], 2);
}

#[test]
fn document_download_failures() {
    let mut d = FileDownload::new();
    d.step(FilePartOutcome::Failed);
    assert!(d.done);
    assert!(matches!(d.finish(), Err(GenErr::Download)));
    let mut e = FileDownload::new();
    e.step(FilePartOutcome::Part(vec![1, 2]));
    let mut f = FileDownload::new();
    f.step(FilePartOutcome::CdnRedirect);
    assert_eq!(e.finish().unwrap(), vec![1, 2]);
    assert!(f.finish().is_err());
}

#[test]
fn thumb_to_image_media() {
    let t = MediaThumb { size_type: "m".to_string(), dep_volume_id: 1, dep_local_id: 2, w: 3, h: 4, size: 5 };
    let m = thumb_as_media(&t);
    assert_eq!(m.media_type, MediaType::Image);
    assert_eq!((m.dep_volume_id, m.dep_local_id, m.w, m.h, m.size), (1, 2, 3, 4, 5));
}
