//! Pinned-item endpoints, including the tagged pinned-item union decoded
//! by explicit tag dispatch.

use vstd::prelude::*;
use crate::json::{Json, JsonV};
use crate::decode::{
    FromJson, DecodeErr, decode_failure, keys_ok, keys_view, sp_keys_ok, sp_req_field,
    sp_opt_field, sp_opt_vec, req_field, opt_field, opt_vec, opt_view, opt_vec_view,
};
use crate::requests::{Transport, Error, ToParams, call_contract, call_method};
use crate::codec::pair_views;
use crate::text::str_eq;
use crate::types::{UserId, ChannelId, FileId, File, FileV, FileComment, FileCommentV, Message, MessageV, OkResponse};
use crate::timestamp::{Timestamp, TimestampV, ts_chars};
use vstd::string::StringSliceAdditionalSpecFns;

verus! {

/// Asks to pin an item to a channel.
#[derive(Clone, Debug)]
pub struct AddRequest {
    pub channel: ChannelId,
    pub file: Option<FileId>,
    pub timestamp: Option<Timestamp>,
}

impl ToParams for AddRequest {
    open spec fn spec_params(&self) -> Seq<(Seq<char>, Seq<char>)> {
        seq![(("channel")@, self.channel@)] + (match self.file {
                    Some(s) => seq![(("file")@, s@)],
                    None => seq![],
            }) + (match self.timestamp {
                    Some(t) => seq![(("timestamp")@, ts_chars(t@))],
                    None => seq![],
            })
    }

    fn to_params(&self) -> (r: Vec<(String, String)>) {
        let mut out: Vec<(String, String)> = Vec::new();
        out.push(("channel".to_owned(), self.channel.clone()));
        match &self.file {
            Some(s) => {
                out.push(("file".to_owned(), s.clone()));
            },
            None => {},
        }
        match &self.timestamp {
            Some(t) => {
                out.push(("timestamp".to_owned(), t.to_text()));
            },
            None => {},
        }
        proof {
            assert(pair_views(out@) =~= self.spec_params());
        }
        out
    }
}

/// Pins an item to a channel.
///
/// Wraps the remote method `pins.add`.
pub fn add<C: Transport>(client: &C, token: &str, req: &AddRequest) -> (r: Result<
    OkResponse,
    Error<<C as Transport>::E>,
>)
    ensures
        call_contract::<OkResponse, <C as Transport>::E>(r),
{
    proof {
        reveal_strlit("pins.add");
    }
    call_method(client, token, "pins.add", req)
}

/// Asks for a channel's pinned items.
#[derive(Clone, Debug)]
pub struct ListRequest {
    pub channel: ChannelId,
}

impl ToParams for ListRequest {
    open spec fn spec_params(&self) -> Seq<(Seq<char>, Seq<char>)> {
        seq![(("channel")@, self.channel@)]
    }

    fn to_params(&self) -> (r: Vec<(String, String)>) {
        let mut out: Vec<(String, String)> = Vec::new();
        out.push(("channel".to_owned(), self.channel.clone()));
        proof {
            assert(pair_views(out@) =~= self.spec_params());
        }
        out
    }
}

/// A pinned file.
#[derive(Clone, Debug)]
pub struct ListResponseItemFile {
    pub created: Option<Timestamp>,
    pub created_by: Option<UserId>,
    pub file: File,
}

/// The view of a `ListResponseItemFile`.
pub struct ListResponseItemFileV {
    pub created: Option<TimestampV>,
    pub created_by: Option<Seq<char>>,
    pub file: FileV,
}

impl View for ListResponseItemFile {
    type V = ListResponseItemFileV;

    open spec fn view(&self) -> ListResponseItemFileV {
        ListResponseItemFileV {
            created: opt_view(self.created),
            created_by: opt_view(self.created_by),
            file: self.file@,
        }
    }
}

impl FromJson for ListResponseItemFile {
    open spec fn from_json_spec(j: JsonV) -> Option<ListResponseItemFileV> {
        match j {
            JsonV::Obj(es) => match sp_opt_field::<Timestamp>(es, ("created").spec_bytes()) {
                    Some(created) => match sp_opt_field::<UserId>(es, ("created_by").spec_bytes()) {
                        Some(created_by) => match sp_req_field::<File>(es, ("file").spec_bytes()) {
                            Some(file) => Some(ListResponseItemFileV { created, created_by, file }),
                            None => None,
                        },
                        None => None,
                    },
                    None => None,
                },
            _ => None,
        }
    }

    fn from_json(j: &Json) -> (r: Result<Self, DecodeErr>) {
        broadcast use crate::json::lemma_view_obj;

        let es = match j {
            Json::Obj(es) => es,
            _ => {
                return Err(decode_failure());
            },
        };
        let created = match opt_field::<Timestamp>(es, "created") {
            Ok(v) => v,
            Err(e) => {
                return Err(e);
            },
        };
        let created_by = match opt_field::<UserId>(es, "created_by") {
            Ok(v) => v,
            Err(e) => {
                return Err(e);
            },
        };
        let file = match req_field::<File>(es, "file") {
            Ok(v) => v,
            Err(e) => {
                return Err(e);
            },
        };
        Ok(ListResponseItemFile { created, created_by, file })
    }
}

/// A pinned file comment.
#[derive(Clone, Debug)]
pub struct ListResponseItemFileComment {
    pub comment: FileComment,
    pub created: Option<Timestamp>,
    pub created_by: Option<UserId>,
    pub file: File,
}

/// The view of a `ListResponseItemFileComment`.
pub struct ListResponseItemFileCommentV {
    pub comment: FileCommentV,
    pub created: Option<TimestampV>,
    pub created_by: Option<Seq<char>>,
    pub file: FileV,
}

impl View for ListResponseItemFileComment {
    type V = ListResponseItemFileCommentV;

    open spec fn view(&self) -> ListResponseItemFileCommentV {
        ListResponseItemFileCommentV {
            comment: self.comment@,
            created: opt_view(self.created),
            created_by: opt_view(self.created_by),
            file: self.file@,
        }
    }
}

impl FromJson for ListResponseItemFileComment {
    open spec fn from_json_spec(j: JsonV) -> Option<ListResponseItemFileCommentV> {
        match j {
            JsonV::Obj(es) => match sp_req_field::<FileComment>(es, ("comment").spec_bytes()) {
                    Some(comment) => match sp_opt_field::<Timestamp>(es, ("created").spec_bytes()) {
                        Some(created) => match sp_opt_field::<UserId>(es, ("created_by").spec_bytes()) {
                            Some(created_by) => match sp_req_field::<File>(es, ("file").spec_bytes()) {
                                Some(file) => Some(ListResponseItemFileCommentV { comment, created, created_by, file }),
                                None => None,
                            },
                            None => None,
                        },
                        None => None,
                    },
                    None => None,
                },
            _ => None,
        }
    }

    fn from_json(j: &Json) -> (r: Result<Self, DecodeErr>) {
        broadcast use crate::json::lemma_view_obj;

        let es = match j {
            Json::Obj(es) => es,
            _ => {
                return Err(decode_failure());
            },
        };
        let comment = match req_field::<FileComment>(es, "comment") {
            Ok(v) => v,
            Err(e) => {
                return Err(e);
            },
        };
        let created = match opt_field::<Timestamp>(es, "created") {
            Ok(v) => v,
            Err(e) => {
                return Err(e);
            },
        };
        let created_by = match opt_field::<UserId>(es, "created_by") {
            Ok(v) => v,
            Err(e) => {
                return Err(e);
            },
        };
        let file = match req_field::<File>(es, "file") {
            Ok(v) => v,
            Err(e) => {
                return Err(e);
            },
        };
        Ok(ListResponseItemFileComment { comment, created, created_by, file })
    }
}

/// A pinned message.
#[derive(Clone, Debug)]
pub struct ListResponseItemMessage {
    pub channel: ChannelId,
    pub created: Option<Timestamp>,
    pub created_by: Option<UserId>,
    pub message: Message,
}

/// The view of a `ListResponseItemMessage`.
pub struct ListResponseItemMessageV {
    pub channel: Seq<char>,
    pub created: Option<TimestampV>,
    pub created_by: Option<Seq<char>>,
    pub message: MessageV,
}

impl View for ListResponseItemMessage {
    type V = ListResponseItemMessageV;

    open spec fn view(&self) -> ListResponseItemMessageV {
        ListResponseItemMessageV {
            channel: self.channel@,
            created: opt_view(self.created),
            created_by: opt_view(self.created_by),
            message: self.message@,
        }
    }
}

impl FromJson for ListResponseItemMessage {
    open spec fn from_json_spec(j: JsonV) -> Option<ListResponseItemMessageV> {
        match j {
            JsonV::Obj(es) => match sp_req_field::<ChannelId>(es, ("channel").spec_bytes()) {
                    Some(channel) => match sp_opt_field::<Timestamp>(es, ("created").spec_bytes()) {
                        Some(created) => match sp_opt_field::<UserId>(es, ("created_by").spec_bytes()) {
                            Some(created_by) => match sp_req_field::<Message>(es, ("message").spec_bytes()) {
                                Some(message) => Some(ListResponseItemMessageV { channel, created, created_by, message }),
                                None => None,
                            },
                            None => None,
                        },
                        None => None,
                    },
                    None => None,
                },
            _ => None,
        }
    }

    fn from_json(j: &Json) -> (r: Result<Self, DecodeErr>) {
        broadcast use crate::json::lemma_view_obj;

        let es = match j {
            Json::Obj(es) => es,
            _ => {
                return Err(decode_failure());
            },
        };
        let channel = match req_field::<ChannelId>(es, "channel") {
            Ok(v) => v,
            Err(e) => {
                return Err(e);
            },
        };
        let created = match opt_field::<Timestamp>(es, "created") {
            Ok(v) => v,
            Err(e) => {
                return Err(e);
            },
        };
        let created_by = match opt_field::<UserId>(es, "created_by") {
            Ok(v) => v,
            Err(e) => {
                return Err(e);
            },
        };
        let message = match req_field::<Message>(es, "message") {
            Ok(v) => v,
            Err(e) => {
                return Err(e);
            },
        };
        Ok(ListResponseItemMessage { channel, created, created_by, message })
    }
}

/// One pinned item: the discriminant field names which shape follows, and
/// the decoder dispatches on it explicitly.
#[derive(Clone, Debug)]
pub enum ListResponseItem {
    Message(ListResponseItemMessage),
    File(ListResponseItemFile),
    FileComment(ListResponseItemFileComment),
}

/// The view of a pinned item.
pub enum ListResponseItemV {
    Message(ListResponseItemMessageV),
    File(ListResponseItemFileV),
    FileComment(ListResponseItemFileCommentV),
}

impl View for ListResponseItem {
    type V = ListResponseItemV;

    open spec fn view(&self) -> ListResponseItemV {
        match self {
            ListResponseItem::Message(m) => ListResponseItemV::Message(m@),
            ListResponseItem::File(f) => ListResponseItemV::File(f@),
            ListResponseItem::FileComment(c) => ListResponseItemV::FileComment(c@),
        }
    }
}

impl FromJson for ListResponseItem {
    open spec fn from_json_spec(j: JsonV) -> Option<ListResponseItemV> {
        match j {
            JsonV::Obj(es) => match sp_req_field::<String>(es, ("type").spec_bytes()) {
                Some(tag) => if tag == ("Message")@ {
                    match ListResponseItemMessage::from_json_spec(j) {
                        Some(m) => Some(ListResponseItemV::Message(m)),
                        None => None,
                    }
                } else if tag == ("File")@ {
                    match ListResponseItemFile::from_json_spec(j) {
                        Some(f) => Some(ListResponseItemV::File(f)),
                        None => None,
                    }
                } else if tag == ("FileComment")@ {
                    match ListResponseItemFileComment::from_json_spec(j) {
                        Some(c) => Some(ListResponseItemV::FileComment(c)),
                        None => None,
                    }
                } else {
                    None
                },
                None => None,
            },
            _ => None,
        }
    }

    fn from_json(j: &Json) -> (r: Result<Self, DecodeErr>) {
        broadcast use crate::json::lemma_view_obj;

        let es = match j {
            Json::Obj(es) => es,
            _ => {
                return Err(decode_failure());
            },
        };
        let tag = match req_field::<String>(es, "type") {
            Ok(v) => v,
            Err(e) => {
                return Err(e);
            },
        };
        if str_eq(tag.as_str(), "Message") {
            match ListResponseItemMessage::from_json(j) {
                Ok(m) => Ok(ListResponseItem::Message(m)),
                Err(e) => Err(e),
            }
        } else if str_eq(tag.as_str(), "File") {
            match ListResponseItemFile::from_json(j) {
                Ok(f) => Ok(ListResponseItem::File(f)),
                Err(e) => Err(e),
            }
        } else if str_eq(tag.as_str(), "FileComment") {
            match ListResponseItemFileComment::from_json(j) {
                Ok(c) => Ok(ListResponseItem::FileComment(c)),
                Err(e) => Err(e),
            }
        } else {
            Err(decode_failure())
        }
    }
}

/// A channel's pinned items.
#[derive(Clone, Debug)]
pub struct ListResponse {
    pub items: Option<Vec<ListResponseItem>>,
}

/// The view of a `ListResponse`.
pub struct ListResponseV {
    pub items: Option<Seq<ListResponseItemV>>,
}

impl View for ListResponse {
    type V = ListResponseV;

    open spec fn view(&self) -> ListResponseV {
        ListResponseV {
            items: opt_vec_view(self.items),
        }
    }
}

impl FromJson for ListResponse {
    open spec fn from_json_spec(j: JsonV) -> Option<ListResponseV> {
        match j {
            JsonV::Obj(es) => if sp_keys_ok(es, seq![("items").spec_bytes()]) {
                    match sp_opt_vec::<ListResponseItem>(es, ("items").spec_bytes()) {
                        Some(items) => Some(ListResponseV { items }),
                        None => None,
                    }
                } else {
                    None
                },
            _ => None,
        }
    }

    fn from_json(j: &Json) -> (r: Result<Self, DecodeErr>) {
        broadcast use crate::json::lemma_view_obj;

        let es = match j {
            Json::Obj(es) => es,
            _ => {
                return Err(decode_failure());
            },
        };
        let mut allowed: Vec<&str> = Vec::new();
        allowed.push("items");
        proof {
            assert(keys_view(allowed@) =~= seq![("items").spec_bytes()]);
        }
        if !keys_ok(es, &allowed) {
            return Err(decode_failure());
        }
        let items = match opt_vec::<ListResponseItem>(es, "items") {
            Ok(v) => v,
            Err(e) => {
                return Err(e);
            },
        };
        Ok(ListResponse { items })
    }
}

/// Lists items pinned to a channel.
///
/// Wraps the remote method `pins.list`.
pub fn list<C: Transport>(client: &C, token: &str, req: &ListRequest) -> (r: Result<
    ListResponse,
    Error<<C as Transport>::E>,
>)
    ensures
        call_contract::<ListResponse, <C as Transport>::E>(r),
{
    proof {
        reveal_strlit("pins.list");
    }
    call_method(client, token, "pins.list", req)
}

/// Asks to un-pin an item from a channel.
#[derive(Clone, Debug)]
pub struct RemoveRequest {
    pub channel: ChannelId,
    pub file: Option<FileId>,
    pub timestamp: Option<Timestamp>,
}

impl ToParams for RemoveRequest {
    open spec fn spec_params(&self) -> Seq<(Seq<char>, Seq<char>)> {
        seq![(("channel")@, self.channel@)] + (match self.file {
                    Some(s) => seq![(("file")@, s@)],
                    None => seq![],
            }) + (match self.timestamp {
                    Some(t) => seq![(("timestamp")@, ts_chars(t@))],
                    None => seq![],
            })
    }

    fn to_params(&self) -> (r: Vec<(String, String)>) {
        let mut out: Vec<(String, String)> = Vec::new();
        out.push(("channel".to_owned(), self.channel.clone()));
        match &self.file {
            Some(s) => {
                out.push(("file".to_owned(), s.clone()));
            },
            None => {},
        }
        match &self.timestamp {
            Some(t) => {
                out.push(("timestamp".to_owned(), t.to_text()));
            },
            None => {},
        }
        proof {
            assert(pair_views(out@) =~= self.spec_params());
        }
        out
    }
}

/// Un-pins an item from a channel.
///
/// Wraps the remote method `pins.remove`.
pub fn remove<C: Transport>(client: &C, token: &str, req: &RemoveRequest) -> (r: Result<
    OkResponse,
    Error<<C as Transport>::E>,
>)
    ensures
        call_contract::<OkResponse, <C as Transport>::E>(r),
{
    proof {
        reveal_strlit("pins.remove");
    }
    call_method(client, token, "pins.remove", req)
}

} // verus!
