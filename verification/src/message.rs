//! The message payload, its request wrapper and the builder for both.
//!
//! A request's wire body always has exactly two top-level keys,
//! `validate_only` and `message`, and the message object holds exactly the
//! fields that were set on the builder: an absent field is omitted, never
//! rendered as `null`.

use vstd::prelude::*;

use crate::json::{
    json_bool, json_i64, json_obj, json_str, json_to_text, push_entry, rep, text_of, JsonRep,
};
use crate::notification::{
    notification_to_value, notification_wire, str_list_rep, str_list_to_value, Notification,
    NotificationView,
};

verus! {

/// The delivery priority of a message.
#[derive(Clone, Copy, Debug, PartialEq, Eq, Structural)]
pub enum Priority {
    Normal,
    High,
}

/// The wire text of a priority: the lowercase name of the variant.
pub open spec fn priority_wire(p: Priority) -> Seq<char> {
    match p {
        Priority::Normal => "normal"@,
        Priority::High => "high"@,
    }
}

/// The lowercase wire label of a priority.
pub fn priority_label(p: Priority) -> (r: &'static str)
    ensures
        r@ == priority_wire(p),
{
    match p {
        Priority::Normal => "normal",
        Priority::High => "high",
    }
}

/// An immutable message payload: whatever fields its builder set.
#[derive(Debug)]
pub struct Message {
    pub collapse_key: Option<String>,
    pub content_available: Option<bool>,
    pub data: Option<serde_json::Value>,
    pub delay_while_idle: Option<bool>,
    pub notification: Option<Notification>,
    pub priority: Option<Priority>,
    pub registration_ids: Option<Vec<String>>,
    pub restricted_package_name: Option<String>,
    pub time_to_live: Option<i32>,
    pub topic: Option<String>,
    pub mutable_content: Option<bool>,
}

/// The mathematical value of a [`Message`]: the custom data as the JSON
/// document it holds, and the embedded notification by its own view.
pub struct MessageView {
    pub collapse_key: Option<Seq<char>>,
    pub content_available: Option<bool>,
    pub data: Option<JsonRep>,
    pub delay_while_idle: Option<bool>,
    pub notification: Option<NotificationView>,
    pub priority: Option<Priority>,
    pub registration_ids: Option<Seq<Seq<char>>>,
    pub restricted_package_name: Option<Seq<char>>,
    pub time_to_live: Option<int>,
    pub topic: Option<Seq<char>>,
    pub mutable_content: Option<bool>,
}

impl View for Message {
    type V = MessageView;

    open spec fn view(&self) -> MessageView {
        MessageView {
            collapse_key: self.collapse_key.deep_view(),
            content_available: self.content_available,
            data: match self.data {
                Some(v) => Some(rep(v)),
                None => None,
            },
            delay_while_idle: self.delay_while_idle,
            notification: match self.notification {
                Some(n) => Some(n@),
                None => None,
            },
            priority: self.priority,
            registration_ids: self.registration_ids.deep_view(),
            restricted_package_name: self.restricted_package_name.deep_view(),
            time_to_live: match self.time_to_live {
                Some(t) => Some(t as int),
                None => None,
            },
            topic: self.topic.deep_view(),
            mutable_content: self.mutable_content,
        }
    }
}

/// The message view with every field absent.
pub open spec fn message_none() -> MessageView {
    MessageView {
        collapse_key: None,
        content_available: None,
        data: None,
        delay_while_idle: None,
        notification: None,
        priority: None,
        registration_ids: None,
        restricted_package_name: None,
        time_to_live: None,
        topic: None,
        mutable_content: None,
    }
}

/// The JSON object a message renders to: one entry for each field that was
/// set, under the field's wire key, and nothing else. The priority renders
/// as its lowercase label, the registration ids as an array of strings, the
/// notification as its own object.
pub open spec fn message_wire(m: MessageView) -> Map<Seq<char>, JsonRep> {
    let e = Map::<Seq<char>, JsonRep>::empty();
    let e = match m.collapse_key {
        Some(s) => e.insert("collapse_key"@, JsonRep::Str { text: s }),
        None => e,
    };
    let e = match m.content_available {
        Some(b) => e.insert("content_available"@, JsonRep::Bool { b }),
        None => e,
    };
    let e = match m.data {
        Some(d) => e.insert("data"@, d),
        None => e,
    };
    let e = match m.delay_while_idle {
        Some(b) => e.insert("delay_while_idle"@, JsonRep::Bool { b }),
        None => e,
    };
    let e = match m.notification {
        Some(n) => e.insert("notification"@, JsonRep::Obj { entries: notification_wire(n) }),
        None => e,
    };
    let e = match m.priority {
        Some(p) => e.insert("priority"@, JsonRep::Str { text: priority_wire(p) }),
        None => e,
    };
    let e = match m.registration_ids {
        Some(ids) => e.insert("registration_ids"@, str_list_rep(ids)),
        None => e,
    };
    let e = match m.restricted_package_name {
        Some(s) => e.insert("restricted_package_name"@, JsonRep::Str { text: s }),
        None => e,
    };
    let e = match m.time_to_live {
        Some(t) => e.insert("time_to_live"@, JsonRep::Int { i: t }),
        None => e,
    };
    let e = match m.topic {
        Some(s) => e.insert("topic"@, JsonRep::Str { text: s }),
        None => e,
    };
    let e = match m.mutable_content {
        Some(b) => e.insert("mutable_content"@, JsonRep::Bool { b }),
        None => e,
    };
    e
}

/// Renders a message as a JSON object value holding exactly the fields that
/// were set.
pub fn message_to_value(m: &Message) -> (v: serde_json::Value)
    ensures
        rep(v) == (JsonRep::Obj { entries: message_wire(m@) }),
{
    let mut entries: Vec<(String, serde_json::Value)> = Vec::new();
    match &m.collapse_key {
        Some(s) => push_entry(&mut entries, "collapse_key", json_str(s.as_str())),
        None => {},
    }
    match &m.content_available {
        Some(b) => push_entry(&mut entries, "content_available", json_bool(*b)),
        None => {},
    }
    match &m.data {
        Some(d) => push_entry(&mut entries, "data", d.clone()),
        None => {},
    }
    match &m.delay_while_idle {
        Some(b) => push_entry(&mut entries, "delay_while_idle", json_bool(*b)),
        None => {},
    }
    match &m.notification {
        Some(n) => push_entry(&mut entries, "notification", notification_to_value(n)),
        None => {},
    }
    match &m.priority {
        Some(p) => push_entry(&mut entries, "priority", json_str(priority_label(*p))),
        None => {},
    }
    match &m.registration_ids {
        Some(ids) => push_entry(&mut entries, "registration_ids", str_list_to_value(ids)),
        None => {},
    }
    match &m.restricted_package_name {
        Some(s) => push_entry(&mut entries, "restricted_package_name", json_str(s.as_str())),
        None => {},
    }
    match &m.time_to_live {
        Some(t) => push_entry(&mut entries, "time_to_live", json_i64(*t as i64)),
        None => {},
    }
    match &m.topic {
        Some(s) => push_entry(&mut entries, "topic", json_str(s.as_str())),
        None => {},
    }
    match &m.mutable_content {
        Some(b) => push_entry(&mut entries, "mutable_content", json_bool(*b)),
        None => {},
    }
    json_obj(entries)
}

/// The full wire body: exactly the two top-level keys `validate_only` and
/// `message`.
pub open spec fn body_wire(validate_only: bool, m: MessageView) -> Map<Seq<char>, JsonRep> {
    Map::<Seq<char>, JsonRep>::empty().insert(
        "validate_only"@,
        JsonRep::Bool { b: validate_only },
    ).insert("message"@, JsonRep::Obj { entries: message_wire(m) })
}

/// An immutable request body: the validate-only flag paired with the message.
#[derive(Debug)]
pub struct MessageBody {
    pub validate_only: bool,
    pub message: Message,
}

impl MessageBody {
    /// Renders the body as a JSON object value with exactly the two
    /// top-level keys `validate_only` and `message`.
    pub fn to_value(&self) -> (v: serde_json::Value)
        ensures
            rep(v) == (JsonRep::Obj { entries: body_wire(self.validate_only, self.message@) }),
    {
        let mut entries: Vec<(String, serde_json::Value)> = Vec::new();
        push_entry(&mut entries, "validate_only", json_bool(self.validate_only));
        push_entry(&mut entries, "message", message_to_value(&self.message));
        json_obj(entries)
    }

    /// Renders the body as JSON text.
    pub fn to_json_string(&self) -> (s: String)
        ensures
            s@ == text_of(
                JsonRep::Obj { entries: body_wire(self.validate_only, self.message@) },
            ),
    {
        let v = self.to_value();
        json_to_text(&v)
    }
}

/// An immutable, sendable request: the credential and project the builder
/// was constructed with, and the finished body.
#[derive(Debug)]
pub struct FCMRequest {
    pub api_key: String,
    pub project: String,
    pub body: MessageBody,
}

/// The staging area for a message's fields while a request is being built.
#[derive(Debug)]
pub struct MessageBuilder {
    collapse_key: Option<String>,
    content_available: Option<bool>,
    data: Option<serde_json::Value>,
    delay_while_idle: Option<bool>,
    notification: Option<Notification>,
    priority: Option<Priority>,
    registration_ids: Option<Vec<String>>,
    restricted_package_name: Option<String>,
    time_to_live: Option<i32>,
    topic: Option<String>,
    mutable_content: Option<bool>,
}

impl View for MessageBuilder {
    type V = MessageView;

    closed spec fn view(&self) -> MessageView {
        MessageView {
            collapse_key: self.collapse_key.deep_view(),
            content_available: self.content_available,
            data: match self.data {
                Some(v) => Some(rep(v)),
                None => None,
            },
            delay_while_idle: self.delay_while_idle,
            notification: match self.notification {
                Some(n) => Some(n@),
                None => None,
            },
            priority: self.priority,
            registration_ids: self.registration_ids.deep_view(),
            restricted_package_name: self.restricted_package_name.deep_view(),
            time_to_live: match self.time_to_live {
                Some(t) => Some(t as int),
                None => None,
            },
            topic: self.topic.deep_view(),
            mutable_content: self.mutable_content,
        }
    }
}

/// The mathematical value of a request builder.
pub struct RequestBuilderView {
    pub api_key: Seq<char>,
    pub project: Seq<char>,
    pub validate_only: Option<bool>,
    pub message: MessageView,
}

impl RequestBuilderView {
    /// The same builder with its message replaced.
    pub open spec fn with_message(self, m: MessageView) -> RequestBuilderView {
        RequestBuilderView { message: m, ..self }
    }
}

/// Accumulates a request's fields; [`FCMRequestBuilder::finalize`] turns the
/// accumulated fields into an immutable [`FCMRequest`].
#[derive(Debug)]
pub struct FCMRequestBuilder {
    api_key: String,
    project: String,
    validate_only: Option<bool>,
    message: MessageBuilder,
}

impl View for FCMRequestBuilder {
    type V = RequestBuilderView;

    closed spec fn view(&self) -> RequestBuilderView {
        RequestBuilderView {
            api_key: self.api_key@,
            project: self.project@,
            validate_only: self.validate_only,
            message: self.message@,
        }
    }
}

impl FCMRequestBuilder {
    /// A builder that targets one topic: the message starts with only
    /// `topic` set, and `validate_only` as supplied (absent means `false`
    /// once finalized).
    pub fn new(api_key: &str, project: &str, topic: &str, validate_only: Option<bool>) -> (r:
        FCMRequestBuilder)
        ensures
            r@ == (RequestBuilderView {
                api_key: api_key@,
                project: project@,
                validate_only,
                message: (MessageView { topic: Some(topic@), ..message_none() }),
            }),
    {
        FCMRequestBuilder {
            api_key: api_key.to_owned(),
            project: project.to_owned(),
            validate_only,
            message: MessageBuilder {
                topic: Some(topic.to_owned()),
                registration_ids: None,
                collapse_key: None,
                priority: None,
                content_available: None,
                delay_while_idle: None,
                time_to_live: None,
                restricted_package_name: None,
                data: None,
                notification: None,
                mutable_content: None,
            },
        }
    }

    /// A builder that targets one or more device tokens: the message starts
    /// with only `registration_ids` set, to the given sequence in order.
    pub fn new_multi(api_key: &str, project: &str, ids: &Vec<String>, validate_only: Option<
        bool,
    >) -> (r: FCMRequestBuilder)
        ensures
            r@ == (RequestBuilderView {
                api_key: api_key@,
                project: project@,
                validate_only,
                message: (MessageView {
                    registration_ids: Some(ids.deep_view()),
                    ..message_none()
                }),
            }),
    {
        FCMRequestBuilder {
            api_key: api_key.to_owned(),
            project: project.to_owned(),
            validate_only,
            message: MessageBuilder {
                topic: None,
                registration_ids: Some(clone_ids(ids)),
                collapse_key: None,
                priority: None,
                content_available: None,
                delay_while_idle: None,
                time_to_live: None,
                restricted_package_name: None,
                data: None,
                notification: None,
                mutable_content: None,
            },
        }
    }

    /// Sets the registration ids, overwriting any earlier value.
    pub fn registration_ids(&mut self, ids: &Vec<String>)
        ensures
            final(self)@ == old(self)@.with_message(
                (MessageView {
                    registration_ids: Some(ids.deep_view()),
                    ..old(self)@.message
                }),
            ),
    {
        self.message.registration_ids = Some(clone_ids(ids));
    }

    /// Sets the collapse key, overwriting any earlier value.
    pub fn collapse_key(&mut self, collapse_key: &str)
        ensures
            final(self)@ == old(self)@.with_message(
                (MessageView { collapse_key: Some(collapse_key@), ..old(self)@.message }),
            ),
    {
        self.message.collapse_key = Some(collapse_key.to_owned());
    }

    /// Sets the priority, overwriting any earlier value.
    pub fn priority(&mut self, priority: Priority)
        ensures
            final(self)@ == old(self)@.with_message(
                (MessageView { priority: Some(priority), ..old(self)@.message }),
            ),
    {
        self.message.priority = Some(priority);
    }

    /// Sets the iOS `content_available` flag, overwriting any earlier value.
    pub fn content_available(&mut self, content_available: bool)
        ensures
            final(self)@ == old(self)@.with_message(
                (MessageView {
                    content_available: Some(content_available),
                    ..old(self)@.message
                }),
            ),
    {
        self.message.content_available = Some(content_available);
    }

    /// Sets the delay-while-idle flag, overwriting any earlier value.
    pub fn delay_while_idle(&mut self, delay_while_idle: bool)
        ensures
            final(self)@ == old(self)@.with_message(
                (MessageView {
                    delay_while_idle: Some(delay_while_idle),
                    ..old(self)@.message
                }),
            ),
    {
        self.message.delay_while_idle = Some(delay_while_idle);
    }

    /// Sets how long, in seconds, the provider may hold the message for an
    /// offline device, overwriting any earlier value.
    pub fn time_to_live(&mut self, time_to_live: i32)
        ensures
            final(self)@ == old(self)@.with_message(
                (MessageView {
                    time_to_live: Some(time_to_live as int),
                    ..old(self)@.message
                }),
            ),
    {
        self.message.time_to_live = Some(time_to_live);
    }

    /// Sets the restricted package name, overwriting any earlier value.
    pub fn restricted_package_name(&mut self, restricted_package_name: &str)
        ensures
            final(self)@ == old(self)@.with_message(
                (MessageView {
                    restricted_package_name: Some(restricted_package_name@),
                    ..old(self)@.message
                }),
            ),
    {
        self.message.restricted_package_name = Some(restricted_package_name.to_owned());
    }

    /// Sets the custom data to the given JSON document, overwriting any
    /// earlier value. Conversion of an arbitrary serializable value into a
    /// JSON document is the caller's step, taken before this call.
    pub fn data(&mut self, data: &serde_json::Value)
        ensures
            final(self)@ == old(self)@.with_message(
                (MessageView { data: Some(rep(*data)), ..old(self)@.message }),
            ),
    {
        self.message.data = Some(data.clone());
    }

    /// Sets the notification payload, overwriting any earlier value.
    pub fn notification(&mut self, notification: Notification)
        ensures
            final(self)@ == old(self)@.with_message(
                (MessageView { notification: Some(notification@), ..old(self)@.message }),
            ),
    {
        self.message.notification = Some(notification);
    }

    /// Sets the iOS `mutable_content` flag, overwriting any earlier value.
    pub fn mutable_content(&mut self, mutable_content: bool)
        ensures
            final(self)@ == old(self)@.with_message(
                (MessageView { mutable_content: Some(mutable_content), ..old(self)@.message }),
            ),
    {
        self.message.mutable_content = Some(mutable_content);
    }

    /// Snapshots the accumulated fields into an immutable [`FCMRequest`].
    /// The validate-only flag defaults to `false` when it was never
    /// supplied, and is the supplied value otherwise.
    pub fn finalize(self) -> (r: FCMRequest)
        ensures
            r.api_key@ == self@.api_key,
            r.project@ == self@.project,
            r.body.validate_only == match self@.validate_only {
                Some(b) => b,
                None => false,
            },
            r.body.message@ == self@.message,
    {
        let validate_only = match self.validate_only {
            Some(b) => b,
            None => false,
        };
        FCMRequest {
            api_key: self.api_key,
            project: self.project,
            body: MessageBody {
                message: Message {
                    topic: self.message.topic,
                    registration_ids: self.message.registration_ids,
                    collapse_key: self.message.collapse_key,
                    priority: self.message.priority,
                    content_available: self.message.content_available,
                    delay_while_idle: self.message.delay_while_idle,
                    time_to_live: self.message.time_to_live,
                    restricted_package_name: self.message.restricted_package_name,
                    data: self.message.data,
                    notification: self.message.notification,
                    mutable_content: self.message.mutable_content,
                },
                validate_only,
            },
        }
    }
}

/// Copies a list of registration ids.
fn clone_ids(ids: &Vec<String>) -> (r: Vec<String>)
    ensures
        r.deep_view() == ids.deep_view(),
{
    let mut out: Vec<String> = Vec::new();
    let mut idx: usize = 0;
    while idx < ids.len()
        invariant
            idx <= ids.len(),
            out@.len() == idx,
            forall|j: int| 0 <= j < idx as int ==> (#[trigger] out@[j])@ == ids@[j]@,
        decreases ids.len() - idx,
    {
        out.push(ids[idx].clone());
        idx = idx + 1;
    }
    proof {
        assert(out.deep_view() =~= ids.deep_view());
    }
    out
}

} // verus!
