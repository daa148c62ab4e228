//! What the crawler makes of Telegram's answers: message histories, full
//! channel information and resolved usernames.

use vstd::prelude::*;
use crate::converter::{
    channel_msgs_view, channel_urls_view, chats_view, i32_or_zero, messages_fit,
    process_inline_channel_chats, process_inline_channel_messages, str_or_empty, string_or_empty,
};
use crate::errors::GenErr;
use crate::text::string_views;
use crate::tl_model::{TlChannelData, TlChat, TlChatFull, TlMessage, TlMessages, TlMessagesChatFull};
use crate::types::{
    channel_views, default_channel_info_view, msg_views, ChannelByUsernameResult,
    ChannelByUsernameView, ChannelInfo, ChannelInfoView, Msg, MsgView,
};

verus! {

/// A request for a page of a channel's history.
#[derive(Clone, Debug)]
pub struct ReqGetMessages {
    pub channel_id: i32,
    pub access_hash: i64,
    pub offset_id: i32,
    pub offset_date: i32,
    pub add_offset: i32,
    pub limit: i32,
    pub max_id: i32,
    pub min_id: i32,
    pub hash: i32,
}

/// What a page of a channel's history holds.
#[derive(Clone, Debug)]
pub struct MsgHolder {
    pub msgs: Vec<Msg>,
    pub channels: Vec<ChannelInfo>,
    pub urls: Vec<String>,
    pub users: Vec<String>,
}

/// The value of a `MsgHolder`.
pub ghost struct MsgHolderView {
    pub msgs: Seq<MsgView>,
    pub channels: Seq<ChannelInfoView>,
    pub urls: Seq<Seq<char>>,
    pub users: Seq<Seq<char>>,
}

impl View for MsgHolder {
    type V = MsgHolderView;

    open spec fn view(&self) -> MsgHolderView {
        MsgHolderView {
            msgs: msg_views(self.msgs@),
            channels: channel_views(self.channels@),
            urls: string_views(self.urls@),
            users: string_views(self.users@),
        }
    }
}

/// What a history answer holds: for a channel's history its messages,
/// channels and links; nothing for any other answer.
pub open spec fn history_view(mt: TlMessages) -> MsgHolderView {
    match mt {
        TlMessages::ChannelMessages { messages, chats } => MsgHolderView {
            msgs: channel_msgs_view(messages@),
            channels: chats_view(chats@),
            urls: channel_urls_view(messages@),
            users: Seq::empty(),
        },
        TlMessages::Other => MsgHolderView {
            msgs: Seq::empty(),
            channels: Seq::empty(),
            urls: Seq::empty(),
            users: Seq::empty(),
        },
    }
}

/// What a history answer needs to be read: every message's buttons fit.
pub open spec fn history_fits(mt: TlMessages) -> bool {
    mt matches TlMessages::ChannelMessages { messages, chats } ==> messages_fit(messages@)
}

/// The messages, channels and links of a history answer.
pub fn process_channel_msgs(mt: &TlMessages) -> (r: MsgHolder)
    requires
        history_fits(*mt),
    ensures
        r@ == history_view(*mt),
{
    let mut msg_holder = MsgHolder {
        msgs: Vec::new(),
        channels: Vec::new(),
        urls: Vec::new(),
        users: Vec::new(),
    };
    match mt {
        TlMessages::ChannelMessages { messages, chats } => {
            msg_holder.channels = process_inline_channel_chats(chats);
            let res = process_inline_channel_messages(messages);
            msg_holder.msgs = res.0;
            msg_holder.urls = res.1;
        },
        TlMessages::Other => {},
    }
    assert(string_views(msg_holder.users@) =~= Seq::<Seq<char>>::empty());
    assert(msg_holder@.msgs =~= history_view(*mt).msgs);
    assert(msg_holder@.channels =~= history_view(*mt).channels);
    assert(msg_holder@.urls =~= history_view(*mt).urls);
    msg_holder
}

/// Reading a history in two consecutive batches gives the records and links
/// of the whole history, in order.
pub proof fn lemma_history_batches(a: Seq<TlMessage>, b: Seq<TlMessage>)
    ensures
        channel_msgs_view(a + b) == channel_msgs_view(a) + channel_msgs_view(b),
        channel_urls_view(a + b) == channel_urls_view(a) + channel_urls_view(b),
    decreases b.len(),
{
    if b.len() == 0 {
        assert(a + b =~= a);
        assert(channel_msgs_view(b) =~= Seq::<MsgView>::empty());
        assert(channel_msgs_view(a) + channel_msgs_view(b) =~= channel_msgs_view(a));
        assert(channel_urls_view(a) + channel_urls_view(b) =~= channel_urls_view(a));
    } else {
        let b0 = b.drop_last();
        lemma_history_batches(a, b0);
        assert((a + b).drop_last() =~= a + b0);
        assert((a + b).last() == b.last());
        match b.last() {
            TlMessage::Message(m) => {
                assert(channel_msgs_view(a + b) =~= channel_msgs_view(a) + channel_msgs_view(b));
                assert(channel_urls_view(a + b) =~= channel_urls_view(a) + channel_urls_view(b));
            },
            _ => {},
        }
    }
}

/// How many ordinary messages are among `messages`.
pub fn count_ordinary_messages(messages: &Vec<TlMessage>) -> (n: usize)
    ensures
        n == channel_msgs_view(messages@).len(),
{
    let mut n: usize = 0;
    for i in 0..messages.len()
        invariant
            n == channel_msgs_view(messages@.take(i as int)).len(),
            n <= i,
    {
        assert(messages@.take(i + 1).drop_last() =~= messages@.take(i as int));
        assert(messages@.take(i + 1).last() == messages@[i as int]);
        match &messages[i] {
            TlMessage::Message(_) => {
                n = n + 1;
            },
            _ => {},
        }
    }
    assert(messages@.take(messages@.len() as int) =~= messages@);
    n
}

// ------------------------------------------------------------ channel info

/// The channel record built from a full-channel answer.
pub open spec fn full_channel_view(full: TlMessagesChatFull) -> ChannelInfoView {
    let ci = match full.full_chat {
        TlChatFull::ChannelFull(c) => ChannelInfoView {
            id: c.id,
            pts: c.pts,
            read_inbox_max_id: c.read_inbox_max_id,
            members_count: i32_or_zero(c.participants_count),
            ..default_channel_info_view()
        },
        TlChatFull::Other => default_channel_info_view(),
    };
    match full.chats@[0] {
        TlChat::Channel(ch) => ChannelInfoView {
            id: ch.id,
            title: ch.title@,
            username: str_or_empty(ch.username),
            access_hash: match ch.access_hash {
                Some(a) => a,
                None => 0,
            },
            date: ch.date,
            version: ch.version,
            restricted: ch.restricted,
            megagroup: ch.megagroup,
            full_data: true,
            ..ci
        },
        TlChat::Other => ci,
    }
}

/// The channel record of a full-channel answer: it must list exactly one
/// chat, else the answer is refused with `TGConverter`.
pub fn channel_info_from_full_chat(full: &TlMessagesChatFull) -> (r: Result<ChannelInfo, GenErr>)
    ensures
        r is Ok <==> full.chats@.len() == 1,
        r matches Ok(ci) ==> ci@ == full_channel_view(*full),
        r matches Err(e) ==> e is TGConverter,
{
    let mut ci = ChannelInfo::default();
    match &full.full_chat {
        TlChatFull::ChannelFull(c) => {
            ci.id = c.id;
            ci.pts = c.pts;
            ci.read_inbox_max_id = c.read_inbox_max_id;
            ci.members_count = match c.participants_count {
                Some(n) => n,
                None => 0,
            };
        },
        TlChatFull::Other => {},
    }
    if full.chats.len() == 1 {
        match &full.chats[0] {
            TlChat::Channel(ch) => {
                ci.id = ch.id;
                ci.title = ch.title.clone();
                ci.username = string_or_empty(&ch.username);
                ci.access_hash = match ch.access_hash {
                    Some(a) => a,
                    None => 0,
                };
                ci.date = ch.date;
                ci.version = ch.version;
                ci.restricted = ch.restricted;
                ci.megagroup = ch.megagroup;
                ci.full_data = true;
            },
            TlChat::Other => {},
        }
        return Ok(ci);
    }
    Err(GenErr::TGConverter)
}

// ------------------------------------------------------------ usernames

/// The first channel among `chats`.
pub open spec fn first_channel(chats: Seq<TlChat>) -> Option<TlChannelData>
    decreases chats.len(),
{
    if chats.len() == 0 {
        None
    } else {
        match chats[0] {
            TlChat::Channel(c) => Some(c),
            TlChat::Other => first_channel(chats.drop_first()),
        }
    }
}

/// The record of a channel a username resolved to.
pub open spec fn by_username_view(c: TlChannelData) -> ChannelByUsernameView {
    ChannelByUsernameView {
        id: c.id,
        title: c.title@,
        username: str_or_empty(c.username),
        access_hash: match c.access_hash {
            Some(a) => a,
            None => 0,
        },
        date: c.date,
        photo: 0,
        version: c.version,
        restricted: c.restricted,
        megagroup: c.megagroup,
    }
}

/// The channel a username resolved to: the first channel among the chats of
/// the answer; `TGConverter` when there is none (the username belongs to a
/// person or a group).
pub fn channel_from_resolved_chats(chats: &Vec<TlChat>) -> (r: Result<ChannelByUsernameResult, GenErr>)
    ensures
        match first_channel(chats@) {
            Some(c) => r matches Ok(res) && res@ == by_username_view(c),
            None => r matches Err(e) && e is TGConverter,
        },
{
    assert(chats@.skip(0) =~= chats@);
    for i in 0..chats.len()
        invariant
            first_channel(chats@) == first_channel(chats@.skip(i as int)),
    {
        assert(chats@.skip(i as int)[0] == chats@[i as int]);
        match &chats[i] {
            TlChat::Channel(c) => {
                let res = ChannelByUsernameResult {
                    id: c.id,
                    title: c.title.clone(),
                    username: string_or_empty(&c.username),
                    access_hash: match c.access_hash {
                        Some(a) => a,
                        None => 0,
                    },
                    date: c.date,
                    photo: 0,
                    version: c.version,
                    restricted: c.restricted,
                    megagroup: c.megagroup,
                };
                return Ok(res);
            },
            TlChat::Other => {
                assert(chats@.skip(i as int).drop_first() =~= chats@.skip(i + 1));
            },
        }
    }
    Err(GenErr::TGConverter)
}

// ------------------------------------------------------------ laws

/// The channel record of a full-channel answer listing one channel copies
/// that channel's id, title, username (empty when it has none), access hash
/// (0 when it has none), date, version and flags, marks the record as full,
/// and takes the member count (0 when unknown), the read-inbox mark and the
/// update counter from the full information of a channel.
pub proof fn lemma_full_channel_fields(full: TlMessagesChatFull)
    requires
        full.chats@.len() == 1,
        full.chats@[0] is Channel,
    ensures
        ({
            let ch = full.chats@[0]->Channel_0;
            let ci = full_channel_view(full);
            &&& ci.id == ch.id
            &&& ci.title == ch.title@
            &&& ci.username == (match ch.username {
                Some(u) => u@,
                None => Seq::<char>::empty(),
            })
            &&& ci.access_hash == (match ch.access_hash {
                Some(a) => a,
                None => 0i64,
            })
            &&& ci.date == ch.date
            &&& ci.version == ch.version
            &&& ci.restricted == ch.restricted
            &&& ci.megagroup == ch.megagroup
            &&& ci.full_data
            &&& full.full_chat matches TlChatFull::ChannelFull(c) ==> {
                &&& ci.members_count == (match c.participants_count {
                    Some(n) => n,
                    None => 0i32,
                })
                &&& ci.read_inbox_max_id == c.read_inbox_max_id
                &&& ci.pts == c.pts
            }
        }),
{
}

/// The first channel among some chats stands at an index before which
/// every chat is something other than a channel; there is none only when
/// no chat is a channel.
pub proof fn lemma_first_channel(chats: Seq<TlChat>)
    ensures
        first_channel(chats) is None <==> forall|i: int|
            0 <= i < chats.len() ==> !(#[trigger] chats[i] is Channel),
        first_channel(chats) matches Some(c) ==> exists|i: int|
            0 <= i < chats.len() && #[trigger] chats[i] == TlChat::Channel(c) && forall|j: int|
                0 <= j < i ==> !(#[trigger] chats[j] is Channel),
    decreases chats.len(),
{
    if chats.len() > 0 {
        let rest = chats.drop_first();
        lemma_first_channel(rest);
        assert forall|i: int| 0 <= i < rest.len() implies rest[i] == chats[i + 1] by {}
        if chats[0] is Other {
            if first_channel(chats) is None {
                assert forall|i: int| 0 <= i < chats.len() implies !(#[trigger] chats[i] is Channel) by {
                    if i > 0 {
                        assert(rest[i - 1] == chats[i]);
                    }
                }
            } else {
                let c = first_channel(chats)->0;
                let i = choose|i: int|
                    0 <= i < rest.len() && #[trigger] rest[i] == TlChat::Channel(c) && forall|j: int|
                        0 <= j < i ==> !(#[trigger] rest[j] is Channel);
                assert(chats[i + 1] == TlChat::Channel(c));
                assert forall|j: int| 0 <= j < i + 1 implies !(#[trigger] chats[j] is Channel) by {
                    if j > 0 {
                        assert(rest[j - 1] == chats[j]);
                    }
                }
            }
        } else {
            assert(chats[0] == TlChat::Channel(chats[0]->Channel_0));
        }
    }
}

/// The record of a channel a username resolved to copies the channel's id,
/// title, username (empty when it has none), access hash (0 when it has
/// none), date, version and flags; it holds no photo.
pub proof fn lemma_resolved_channel_fields(c: TlChannelData)
    ensures
        by_username_view(c).id == c.id,
        by_username_view(c).title == c.title@,
        by_username_view(c).username == (match c.username {
            Some(u) => u@,
            None => Seq::<char>::empty(),
        }),
        by_username_view(c).access_hash == (match c.access_hash {
            Some(a) => a,
            None => 0i64,
        }),
        by_username_view(c).date == c.date,
        by_username_view(c).version == c.version,
        by_username_view(c).restricted == c.restricted,
        by_username_view(c).megagroup == c.megagroup,
        by_username_view(c).photo == 0,
{
}

} // verus!
