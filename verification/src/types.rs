//! Shared data records of the remote API, and the identifier aliases used
//! throughout the endpoint modules. These are plain data carriers; the
//! algorithmic weight lives in the decoder and codec modules.

use vstd::prelude::*;
use crate::json::{Json, JsonV};
use crate::decode::{
    FromJson, DecodeErr, decode_failure, keys_ok, keys_view, sp_keys_ok, sp_lookup, lookup,
    sp_req_field, sp_opt_field, req_field, opt_field, opt_view,
};
use crate::codec::{
    MapDecode, sp_struct_or_empty, decode_struct_or_empty, pair_views, decode_entries,
    sp_decode_entries, sp_pairs_get, pairs_get,
};
use crate::timestamp::{Timestamp, TimestampV};
use vstd::string::StringSliceAdditionalSpecFns;

verus! {

/// A user identifier.
pub type UserId = String;

/// A channel identifier.
pub type ChannelId = String;

/// A team identifier.
pub type TeamId = String;

/// A file identifier.
pub type FileId = String;

/// An application identifier.
pub type AppId = String;

/// A user group identifier.
pub type UsergroupId = String;

/// An opaque paging cursor, resubmitted byte-for-byte.
pub type Cursor = String;

/// One labelled profile attribute.
#[derive(Clone, Debug)]
pub struct ProfileField {
    pub alt: Option<String>,
    pub label: Option<String>,
    pub value: Option<String>,
}

/// The view of a `ProfileField`.
pub struct ProfileFieldV {
    pub alt: Option<Seq<char>>,
    pub label: Option<Seq<char>>,
    pub value: Option<Seq<char>>,
}

impl View for ProfileField {
    type V = ProfileFieldV;

    open spec fn view(&self) -> ProfileFieldV {
        ProfileFieldV {
            alt: opt_view(self.alt),
            label: opt_view(self.label),
            value: opt_view(self.value),
        }
    }
}

impl FromJson for ProfileField {
    open spec fn from_json_spec(j: JsonV) -> Option<ProfileFieldV> {
        match j {
            JsonV::Obj(es) => match sp_opt_field::<String>(es, ("alt").spec_bytes()) {
                    Some(alt) => match sp_opt_field::<String>(es, ("label").spec_bytes()) {
                        Some(label) => match sp_opt_field::<String>(es, ("value").spec_bytes()) {
                            Some(value) => Some(ProfileFieldV { alt, label, value }),
                            None => None,
                        },
                        None => None,
                    },
                    None => None,
                },
            _ => None,
        }
    }

    fn from_json(j: &Json) -> (r: Result<Self, DecodeErr>) {
        broadcast use crate::json::lemma_view_obj;

        let es = match j {
            Json::Obj(es) => es,
            _ => {
                return Err(decode_failure());
            },
        };
        let alt = match opt_field::<String>(es, "alt") {
            Ok(v) => v,
            Err(e) => {
                return Err(e);
            },
        };
        let label = match opt_field::<String>(es, "label") {
            Ok(v) => v,
            Err(e) => {
                return Err(e);
            },
        };
        let value = match opt_field::<String>(es, "value") {
            Ok(v) => v,
            Err(e) => {
                return Err(e);
            },
        };
        Ok(ProfileField { alt, label, value })
    }
}

/// The labelled profile attributes of a user: an ordered map from field
/// identifiers to attributes, arriving through the struct-or-empty-collection
/// codec (the remote service sends an empty array where it means an empty
/// map).
#[derive(Clone, Debug)]
pub struct ProfileFields {
    pub entries: Vec<(String, ProfileField)>,
}

/// The view of a `ProfileFields`: its pairs, in order.
pub struct ProfileFieldsV {
    pub entries: Seq<(Seq<char>, ProfileFieldV)>,
}

impl View for ProfileFields {
    type V = ProfileFieldsV;

    open spec fn view(&self) -> ProfileFieldsV {
        ProfileFieldsV { entries: pair_views(self.entries@) }
    }
}

impl ProfileFields {
    /// The attribute under `key`, if any.
    pub fn get<'a>(&'a self, key: &str) -> (r: Option<&'a ProfileField>)
        ensures
            (match r {
                Some(v) => sp_pairs_get(self@.entries, key@, 0) == Some(v@),
                None => sp_pairs_get(self@.entries, key@, 0) is None,
            }),
    {
        pairs_get(&self.entries, key)
    }

    /// The number of attributes.
    pub fn len(&self) -> (r: usize)
        ensures
            r == self@.entries.len(),
    {
        self.entries.len()
    }
}

impl MapDecode for ProfileFields {
    open spec fn empty_spec() -> ProfileFieldsV {
        ProfileFieldsV { entries: Seq::<(Seq<char>, ProfileFieldV)>::empty() }
    }

    open spec fn from_entries_spec(es: Seq<(Seq<u8>, JsonV)>) -> Option<ProfileFieldsV> {
        match sp_decode_entries::<ProfileField>(es) {
            Some(pairs) => Some(ProfileFieldsV { entries: pairs }),
            None => None,
        }
    }

    fn empty_default() -> (r: Self) {
        let r = ProfileFields { entries: Vec::new() };
        proof {
            assert(pair_views(r.entries@) =~= Seq::<(Seq<char>, ProfileFieldV)>::empty());
        }
        r
    }

    fn decode_from_map(es: &Vec<(Vec<u8>, Json)>) -> (r: Result<Self, DecodeErr>) {
        match decode_entries::<ProfileField>(es) {
            Ok(entries) => Ok(ProfileFields { entries }),
            Err(e) => Err(e),
        }
    }
}

/// A team, as it appears inside replies.
#[derive(Clone, Debug)]
pub struct Team {
    pub id: Option<TeamId>,
    pub name: Option<String>,
    pub domain: Option<String>,
}

/// The view of a `Team`.
pub struct TeamV {
    pub id: Option<Seq<char>>,
    pub name: Option<Seq<char>>,
    pub domain: Option<Seq<char>>,
}

impl View for Team {
    type V = TeamV;

    open spec fn view(&self) -> TeamV {
        TeamV {
            id: opt_view(self.id),
            name: opt_view(self.name),
            domain: opt_view(self.domain),
        }
    }
}

impl FromJson for Team {
    open spec fn from_json_spec(j: JsonV) -> Option<TeamV> {
        match j {
            JsonV::Obj(es) => match sp_opt_field::<TeamId>(es, ("id").spec_bytes()) {
                    Some(id) => match sp_opt_field::<String>(es, ("name").spec_bytes()) {
                        Some(name) => match sp_opt_field::<String>(es, ("domain").spec_bytes()) {
                            Some(domain) => Some(TeamV { id, name, domain }),
                            None => None,
                        },
                        None => None,
                    },
                    None => None,
                },
            _ => None,
        }
    }

    fn from_json(j: &Json) -> (r: Result<Self, DecodeErr>) {
        broadcast use crate::json::lemma_view_obj;

        let es = match j {
            Json::Obj(es) => es,
            _ => {
                return Err(decode_failure());
            },
        };
        let id = match opt_field::<TeamId>(es, "id") {
            Ok(v) => v,
            Err(e) => {
                return Err(e);
            },
        };
        let name = match opt_field::<String>(es, "name") {
            Ok(v) => v,
            Err(e) => {
                return Err(e);
            },
        };
        let domain = match opt_field::<String>(es, "domain") {
            Ok(v) => v,
            Err(e) => {
                return Err(e);
            },
        };
        Ok(Team { id, name, domain })
    }
}

/// A team member, as it appears inside replies.
#[derive(Clone, Debug)]
pub struct User {
    pub id: Option<UserId>,
    pub name: Option<String>,
    pub profile_fields: Option<ProfileFields>,
}

/// The view of a `User`.
pub struct UserV {
    pub id: Option<Seq<char>>,
    pub name: Option<Seq<char>>,
    pub profile_fields: Option<ProfileFieldsV>,
}

impl View for User {
    type V = UserV;

    open spec fn view(&self) -> UserV {
        UserV {
            id: opt_view(self.id),
            name: opt_view(self.name),
            profile_fields: opt_view(self.profile_fields),
        }
    }
}

impl FromJson for User {
    open spec fn from_json_spec(j: JsonV) -> Option<UserV> {
        match j {
            JsonV::Obj(es) => match sp_opt_field::<UserId>(es, ("id").spec_bytes()) {
                    Some(id) => match sp_opt_field::<String>(es, ("name").spec_bytes()) {
                        Some(name) => match sp_struct_or_empty::<ProfileFields>(sp_lookup(es, ("profile_fields").spec_bytes())) {
                            Some(profile_fields) => Some(UserV { id, name, profile_fields }),
                            None => None,
                        },
                        None => None,
                    },
                    None => None,
                },
            _ => None,
        }
    }

    fn from_json(j: &Json) -> (r: Result<Self, DecodeErr>) {
        broadcast use crate::json::lemma_view_obj;

        let es = match j {
            Json::Obj(es) => es,
            _ => {
                return Err(decode_failure());
            },
        };
        let id = match opt_field::<UserId>(es, "id") {
            Ok(v) => v,
            Err(e) => {
                return Err(e);
            },
        };
        let name = match opt_field::<String>(es, "name") {
            Ok(v) => v,
            Err(e) => {
                return Err(e);
            },
        };
        let profile_fields = match decode_struct_or_empty::<ProfileFields>(lookup(es, "profile_fields".as_bytes())) {
            Ok(v) => v,
            Err(e) => {
                return Err(e);
            },
        };
        Ok(User { id, name, profile_fields })
    }
}

/// A channel, as it appears inside replies.
#[derive(Clone, Debug)]
pub struct Channel {
    pub id: Option<ChannelId>,
    pub name: Option<String>,
    pub is_archived: Option<bool>,
}

/// The view of a `Channel`.
pub struct ChannelV {
    pub id: Option<Seq<char>>,
    pub name: Option<Seq<char>>,
    pub is_archived: Option<bool>,
}

impl View for Channel {
    type V = ChannelV;

    open spec fn view(&self) -> ChannelV {
        ChannelV {
            id: opt_view(self.id),
            name: opt_view(self.name),
            is_archived: opt_view(self.is_archived),
        }
    }
}

impl FromJson for Channel {
    open spec fn from_json_spec(j: JsonV) -> Option<ChannelV> {
        match j {
            JsonV::Obj(es) => match sp_opt_field::<ChannelId>(es, ("id").spec_bytes()) {
                    Some(id) => match sp_opt_field::<String>(es, ("name").spec_bytes()) {
                        Some(name) => match sp_opt_field::<bool>(es, ("is_archived").spec_bytes()) {
                            Some(is_archived) => Some(ChannelV { id, name, is_archived }),
                            None => None,
                        },
                        None => None,
                    },
                    None => None,
                },
            _ => None,
        }
    }

    fn from_json(j: &Json) -> (r: Result<Self, DecodeErr>) {
        broadcast use crate::json::lemma_view_obj;

        let es = match j {
            Json::Obj(es) => es,
            _ => {
                return Err(decode_failure());
            },
        };
        let id = match opt_field::<ChannelId>(es, "id") {
            Ok(v) => v,
            Err(e) => {
                return Err(e);
            },
        };
        let name = match opt_field::<String>(es, "name") {
            Ok(v) => v,
            Err(e) => {
                return Err(e);
            },
        };
        let is_archived = match opt_field::<bool>(es, "is_archived") {
            Ok(v) => v,
            Err(e) => {
                return Err(e);
            },
        };
        Ok(Channel { id, name, is_archived })
    }
}

/// A message, as it appears inside replies.
#[derive(Clone, Debug)]
pub struct Message {
    pub ts: Option<Timestamp>,
    pub user: Option<UserId>,
    pub text: Option<String>,
}

/// The view of a `Message`.
pub struct MessageV {
    pub ts: Option<TimestampV>,
    pub user: Option<Seq<char>>,
    pub text: Option<Seq<char>>,
}

impl View for Message {
    type V = MessageV;

    open spec fn view(&self) -> MessageV {
        MessageV {
            ts: opt_view(self.ts),
            user: opt_view(self.user),
            text: opt_view(self.text),
        }
    }
}

impl FromJson for Message {
    open spec fn from_json_spec(j: JsonV) -> Option<MessageV> {
        match j {
            JsonV::Obj(es) => match sp_opt_field::<Timestamp>(es, ("ts").spec_bytes()) {
                    Some(ts) => match sp_opt_field::<UserId>(es, ("user").spec_bytes()) {
                        Some(user) => match sp_opt_field::<String>(es, ("text").spec_bytes()) {
                            Some(text) => Some(MessageV { ts, user, text }),
                            None => None,
                        },
                        None => None,
                    },
                    None => None,
                },
            _ => None,
        }
    }

    fn from_json(j: &Json) -> (r: Result<Self, DecodeErr>) {
        broadcast use crate::json::lemma_view_obj;

        let es = match j {
            Json::Obj(es) => es,
            _ => {
                return Err(decode_failure());
            },
        };
        let ts = match opt_field::<Timestamp>(es, "ts") {
            Ok(v) => v,
            Err(e) => {
                return Err(e);
            },
        };
        let user = match opt_field::<UserId>(es, "user") {
            Ok(v) => v,
            Err(e) => {
                return Err(e);
            },
        };
        let text = match opt_field::<String>(es, "text") {
            Ok(v) => v,
            Err(e) => {
                return Err(e);
            },
        };
        Ok(Message { ts, user, text })
    }
}

/// A bot integration.
#[derive(Clone, Debug)]
pub struct Bot {
    pub id: Option<String>,
    pub name: Option<String>,
}

/// The view of a `Bot`.
pub struct BotV {
    pub id: Option<Seq<char>>,
    pub name: Option<Seq<char>>,
}

impl View for Bot {
    type V = BotV;

    open spec fn view(&self) -> BotV {
        BotV {
            id: opt_view(self.id),
            name: opt_view(self.name),
        }
    }
}

impl FromJson for Bot {
    open spec fn from_json_spec(j: JsonV) -> Option<BotV> {
        match j {
            JsonV::Obj(es) => match sp_opt_field::<String>(es, ("id").spec_bytes()) {
                    Some(id) => match sp_opt_field::<String>(es, ("name").spec_bytes()) {
                        Some(name) => Some(BotV { id, name }),
                        None => None,
                    },
                    None => None,
                },
            _ => None,
        }
    }

    fn from_json(j: &Json) -> (r: Result<Self, DecodeErr>) {
        broadcast use crate::json::lemma_view_obj;

        let es = match j {
            Json::Obj(es) => es,
            _ => {
                return Err(decode_failure());
            },
        };
        let id = match opt_field::<String>(es, "id") {
            Ok(v) => v,
            Err(e) => {
                return Err(e);
            },
        };
        let name = match opt_field::<String>(es, "name") {
            Ok(v) => v,
            Err(e) => {
                return Err(e);
            },
        };
        Ok(Bot { id, name })
    }
}

/// A private group.
#[derive(Clone, Debug)]
pub struct Group {
    pub id: Option<String>,
    pub name: Option<String>,
}

/// The view of a `Group`.
pub struct GroupV {
    pub id: Option<Seq<char>>,
    pub name: Option<Seq<char>>,
}

impl View for Group {
    type V = GroupV;

    open spec fn view(&self) -> GroupV {
        GroupV {
            id: opt_view(self.id),
            name: opt_view(self.name),
        }
    }
}

impl FromJson for Group {
    open spec fn from_json_spec(j: JsonV) -> Option<GroupV> {
        match j {
            JsonV::Obj(es) => match sp_opt_field::<String>(es, ("id").spec_bytes()) {
                    Some(id) => match sp_opt_field::<String>(es, ("name").spec_bytes()) {
                        Some(name) => Some(GroupV { id, name }),
                        None => None,
                    },
                    None => None,
                },
            _ => None,
        }
    }

    fn from_json(j: &Json) -> (r: Result<Self, DecodeErr>) {
        broadcast use crate::json::lemma_view_obj;

        let es = match j {
            Json::Obj(es) => es,
            _ => {
                return Err(decode_failure());
            },
        };
        let id = match opt_field::<String>(es, "id") {
            Ok(v) => v,
            Err(e) => {
                return Err(e);
            },
        };
        let name = match opt_field::<String>(es, "name") {
            Ok(v) => v,
            Err(e) => {
                return Err(e);
            },
        };
        Ok(Group { id, name })
    }
}

/// A direct-message conversation.
#[derive(Clone, Debug)]
pub struct Im {
    pub id: Option<String>,
    pub name: Option<String>,
}

/// The view of a `Im`.
pub struct ImV {
    pub id: Option<Seq<char>>,
    pub name: Option<Seq<char>>,
}

impl View for Im {
    type V = ImV;

    open spec fn view(&self) -> ImV {
        ImV {
            id: opt_view(self.id),
            name: opt_view(self.name),
        }
    }
}

impl FromJson for Im {
    open spec fn from_json_spec(j: JsonV) -> Option<ImV> {
        match j {
            JsonV::Obj(es) => match sp_opt_field::<String>(es, ("id").spec_bytes()) {
                    Some(id) => match sp_opt_field::<String>(es, ("name").spec_bytes()) {
                        Some(name) => Some(ImV { id, name }),
                        None => None,
                    },
                    None => None,
                },
            _ => None,
        }
    }

    fn from_json(j: &Json) -> (r: Result<Self, DecodeErr>) {
        broadcast use crate::json::lemma_view_obj;

        let es = match j {
            Json::Obj(es) => es,
            _ => {
                return Err(decode_failure());
            },
        };
        let id = match opt_field::<String>(es, "id") {
            Ok(v) => v,
            Err(e) => {
                return Err(e);
            },
        };
        let name = match opt_field::<String>(es, "name") {
            Ok(v) => v,
            Err(e) => {
                return Err(e);
            },
        };
        Ok(Im { id, name })
    }
}

/// A multi-party direct-message conversation.
#[derive(Clone, Debug)]
pub struct Mpim {
    pub id: Option<String>,
    pub name: Option<String>,
}

/// The view of a `Mpim`.
pub struct MpimV {
    pub id: Option<Seq<char>>,
    pub name: Option<Seq<char>>,
}

impl View for Mpim {
    type V = MpimV;

    open spec fn view(&self) -> MpimV {
        MpimV {
            id: opt_view(self.id),
            name: opt_view(self.name),
        }
    }
}

impl FromJson for Mpim {
    open spec fn from_json_spec(j: JsonV) -> Option<MpimV> {
        match j {
            JsonV::Obj(es) => match sp_opt_field::<String>(es, ("id").spec_bytes()) {
                    Some(id) => match sp_opt_field::<String>(es, ("name").spec_bytes()) {
                        Some(name) => Some(MpimV { id, name }),
                        None => None,
                    },
                    None => None,
                },
            _ => None,
        }
    }

    fn from_json(j: &Json) -> (r: Result<Self, DecodeErr>) {
        broadcast use crate::json::lemma_view_obj;

        let es = match j {
            Json::Obj(es) => es,
            _ => {
                return Err(decode_failure());
            },
        };
        let id = match opt_field::<String>(es, "id") {
            Ok(v) => v,
            Err(e) => {
                return Err(e);
            },
        };
        let name = match opt_field::<String>(es, "name") {
            Ok(v) => v,
            Err(e) => {
                return Err(e);
            },
        };
        Ok(Mpim { id, name })
    }
}

/// Paging data attached to a listing reply.
#[derive(Clone, Debug)]
pub struct Paging {
    pub count: Option<u32>,
    pub page: Option<u32>,
    pub pages: Option<u32>,
    pub total: Option<u32>,
}

/// The view of a `Paging`.
pub struct PagingV {
    pub count: Option<u32>,
    pub page: Option<u32>,
    pub pages: Option<u32>,
    pub total: Option<u32>,
}

impl View for Paging {
    type V = PagingV;

    open spec fn view(&self) -> PagingV {
        PagingV {
            count: opt_view(self.count),
            page: opt_view(self.page),
            pages: opt_view(self.pages),
            total: opt_view(self.total),
        }
    }
}

impl FromJson for Paging {
    open spec fn from_json_spec(j: JsonV) -> Option<PagingV> {
        match j {
            JsonV::Obj(es) => match sp_opt_field::<u32>(es, ("count").spec_bytes()) {
                    Some(count) => match sp_opt_field::<u32>(es, ("page").spec_bytes()) {
                        Some(page) => match sp_opt_field::<u32>(es, ("pages").spec_bytes()) {
                            Some(pages) => match sp_opt_field::<u32>(es, ("total").spec_bytes()) {
                                Some(total) => Some(PagingV { count, page, pages, total }),
                                None => None,
                            },
                            None => None,
                        },
                        None => None,
                    },
                    None => None,
                },
            _ => None,
        }
    }

    fn from_json(j: &Json) -> (r: Result<Self, DecodeErr>) {
        broadcast use crate::json::lemma_view_obj;

        let es = match j {
            Json::Obj(es) => es,
            _ => {
                return Err(decode_failure());
            },
        };
        let count = match opt_field::<u32>(es, "count") {
            Ok(v) => v,
            Err(e) => {
                return Err(e);
            },
        };
        let page = match opt_field::<u32>(es, "page") {
            Ok(v) => v,
            Err(e) => {
                return Err(e);
            },
        };
        let pages = match opt_field::<u32>(es, "pages") {
            Ok(v) => v,
            Err(e) => {
                return Err(e);
            },
        };
        let total = match opt_field::<u32>(es, "total") {
            Ok(v) => v,
            Err(e) => {
                return Err(e);
            },
        };
        Ok(Paging { count, page, pages, total })
    }
}

/// A file, as it appears inside replies.
#[derive(Clone, Debug)]
pub struct File {
    pub id: Option<FileId>,
    pub name: Option<String>,
}

/// The view of a `File`.
pub struct FileV {
    pub id: Option<Seq<char>>,
    pub name: Option<Seq<char>>,
}

impl View for File {
    type V = FileV;

    open spec fn view(&self) -> FileV {
        FileV {
            id: opt_view(self.id),
            name: opt_view(self.name),
        }
    }
}

impl FromJson for File {
    open spec fn from_json_spec(j: JsonV) -> Option<FileV> {
        match j {
            JsonV::Obj(es) => match sp_opt_field::<FileId>(es, ("id").spec_bytes()) {
                    Some(id) => match sp_opt_field::<String>(es, ("name").spec_bytes()) {
                        Some(name) => Some(FileV { id, name }),
                        None => None,
                    },
                    None => None,
                },
            _ => None,
        }
    }

    fn from_json(j: &Json) -> (r: Result<Self, DecodeErr>) {
        broadcast use crate::json::lemma_view_obj;

        let es = match j {
            Json::Obj(es) => es,
            _ => {
                return Err(decode_failure());
            },
        };
        let id = match opt_field::<FileId>(es, "id") {
            Ok(v) => v,
            Err(e) => {
                return Err(e);
            },
        };
        let name = match opt_field::<String>(es, "name") {
            Ok(v) => v,
            Err(e) => {
                return Err(e);
            },
        };
        Ok(File { id, name })
    }
}

/// A comment on a file.
#[derive(Clone, Debug)]
pub struct FileComment {
    pub id: Option<String>,
    pub comment: Option<String>,
}

/// The view of a `FileComment`.
pub struct FileCommentV {
    pub id: Option<Seq<char>>,
    pub comment: Option<Seq<char>>,
}

impl View for FileComment {
    type V = FileCommentV;

    open spec fn view(&self) -> FileCommentV {
        FileCommentV {
            id: opt_view(self.id),
            comment: opt_view(self.comment),
        }
    }
}

impl FromJson for FileComment {
    open spec fn from_json_spec(j: JsonV) -> Option<FileCommentV> {
        match j {
            JsonV::Obj(es) => match sp_opt_field::<String>(es, ("id").spec_bytes()) {
                    Some(id) => match sp_opt_field::<String>(es, ("comment").spec_bytes()) {
                        Some(comment) => Some(FileCommentV { id, comment }),
                        None => None,
                    },
                    None => None,
                },
            _ => None,
        }
    }

    fn from_json(j: &Json) -> (r: Result<Self, DecodeErr>) {
        broadcast use crate::json::lemma_view_obj;

        let es = match j {
            Json::Obj(es) => es,
            _ => {
                return Err(decode_failure());
            },
        };
        let id = match opt_field::<String>(es, "id") {
            Ok(v) => v,
            Err(e) => {
                return Err(e);
            },
        };
        let comment = match opt_field::<String>(es, "comment") {
            Ok(v) => v,
            Err(e) => {
                return Err(e);
            },
        };
        Ok(FileComment { id, comment })
    }
}

/// A user group.
#[derive(Clone, Debug)]
pub struct Usergroup {
    pub id: Option<UsergroupId>,
    pub name: Option<String>,
}

/// The view of a `Usergroup`.
pub struct UsergroupV {
    pub id: Option<Seq<char>>,
    pub name: Option<Seq<char>>,
}

impl View for Usergroup {
    type V = UsergroupV;

    open spec fn view(&self) -> UsergroupV {
        UsergroupV {
            id: opt_view(self.id),
            name: opt_view(self.name),
        }
    }
}

impl FromJson for Usergroup {
    open spec fn from_json_spec(j: JsonV) -> Option<UsergroupV> {
        match j {
            JsonV::Obj(es) => match sp_opt_field::<UsergroupId>(es, ("id").spec_bytes()) {
                    Some(id) => match sp_opt_field::<String>(es, ("name").spec_bytes()) {
                        Some(name) => Some(UsergroupV { id, name }),
                        None => None,
                    },
                    None => None,
                },
            _ => None,
        }
    }

    fn from_json(j: &Json) -> (r: Result<Self, DecodeErr>) {
        broadcast use crate::json::lemma_view_obj;

        let es = match j {
            Json::Obj(es) => es,
            _ => {
                return Err(decode_failure());
            },
        };
        let id = match opt_field::<UsergroupId>(es, "id") {
            Ok(v) => v,
            Err(e) => {
                return Err(e);
            },
        };
        let name = match opt_field::<String>(es, "name") {
            Ok(v) => v,
            Err(e) => {
                return Err(e);
            },
        };
        Ok(Usergroup { id, name })
    }
}

/// The bare acknowledgement reply: only the ok flag.
#[derive(Clone, Debug)]
pub struct OkResponse {
    ok: bool,
}

/// The view of a `OkResponse`.
pub struct OkResponseV {
    pub ok: bool,
}

impl View for OkResponse {
    type V = OkResponseV;

    closed spec fn view(&self) -> OkResponseV {
        OkResponseV {
            ok: self.ok,
        }
    }
}

impl FromJson for OkResponse {
    open spec fn from_json_spec(j: JsonV) -> Option<OkResponseV> {
        match j {
            JsonV::Obj(es) => if sp_keys_ok(es, seq![("ok").spec_bytes()]) {
                    match sp_req_field::<bool>(es, ("ok").spec_bytes()) {
                        Some(ok) => Some(OkResponseV { ok }),
                        None => None,
                    }
                } else {
                    None
                },
            _ => None,
        }
    }

    fn from_json(j: &Json) -> (r: Result<Self, DecodeErr>) {
        broadcast use crate::json::lemma_view_obj;

        let es = match j {
            Json::Obj(es) => es,
            _ => {
                return Err(decode_failure());
            },
        };
        let mut allowed: Vec<&str> = Vec::new();
        allowed.push("ok");
        proof {
            assert(keys_view(allowed@) =~= seq![("ok").spec_bytes()]);
        }
        if !keys_ok(es, &allowed) {
            return Err(decode_failure());
        }
        let ok = match req_field::<bool>(es, "ok") {
            Ok(v) => v,
            Err(e) => {
                return Err(e);
            },
        };
        Ok(OkResponse { ok })
    }
}

} // verus!
