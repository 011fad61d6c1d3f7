//! The laws the wire format obeys, stated and proved once for every input.

use vstd::prelude::*;

use crate::json::JsonRep;
use crate::message::{body_wire, message_wire, priority_wire, MessageView, Priority};
use crate::notification::{notification_wire, NotificationView};

verus! {

/// Law: a message field that was never set is absent from the rendered
/// object — its key is not in the object at all, rather than bound to null.
pub proof fn lemma_unset_message_fields_absent(m: MessageView)
    ensures
        m.collapse_key is None ==> !message_wire(m).dom().contains("collapse_key"@),
        m.content_available is None ==> !message_wire(m).dom().contains("content_available"@),
        m.data is None ==> !message_wire(m).dom().contains("data"@),
        m.delay_while_idle is None ==> !message_wire(m).dom().contains("delay_while_idle"@),
        m.notification is None ==> !message_wire(m).dom().contains("notification"@),
        m.priority is None ==> !message_wire(m).dom().contains("priority"@),
        m.registration_ids is None ==> !message_wire(m).dom().contains("registration_ids"@),
        m.restricted_package_name is None ==> !message_wire(m).dom().contains(
            "restricted_package_name"@,
        ),
        m.time_to_live is None ==> !message_wire(m).dom().contains("time_to_live"@),
        m.topic is None ==> !message_wire(m).dom().contains("topic"@),
        m.mutable_content is None ==> !message_wire(m).dom().contains("mutable_content"@),
{
    reveal_strlit("collapse_key");
    reveal_strlit("content_available");
    reveal_strlit("data");
    reveal_strlit("delay_while_idle");
    reveal_strlit("notification");
    reveal_strlit("priority");
    reveal_strlit("registration_ids");
    reveal_strlit("restricted_package_name");
    reveal_strlit("time_to_live");
    reveal_strlit("topic");
    reveal_strlit("mutable_content");
    assert("collapse_key"@.len() == 12 && "content_available"@.len() == 17 && "data"@.len() == 4);
    assert("delay_while_idle"@.len() == 16 && "notification"@.len() == 12);
    assert("priority"@.len() == 8 && "registration_ids"@.len() == 16);
    assert("restricted_package_name"@.len() == 23 && "time_to_live"@.len() == 12);
    assert("topic"@.len() == 5 && "mutable_content"@.len() == 15);
    assert("collapse_key"@[0] == 'c' && "notification"@[0] == 'n' && "time_to_live"@[0] == 't');
    assert("delay_while_idle"@[0] == 'd' && "registration_ids"@[0] == 'r');
}

/// Law: a notification field that was never set is absent from the rendered
/// object.
pub proof fn lemma_unset_notification_fields_absent(n: NotificationView)
    ensures
        n.title is None ==> !notification_wire(n).dom().contains("title"@),
        n.body is None ==> !notification_wire(n).dom().contains("body"@),
        n.icon is None ==> !notification_wire(n).dom().contains("icon"@),
        n.sound is None ==> !notification_wire(n).dom().contains("sound"@),
        n.badge is None ==> !notification_wire(n).dom().contains("badge"@),
        n.tag is None ==> !notification_wire(n).dom().contains("tag"@),
        n.color is None ==> !notification_wire(n).dom().contains("color"@),
        n.click_action is None ==> !notification_wire(n).dom().contains("click_action"@),
        n.body_loc_key is None ==> !notification_wire(n).dom().contains("body_loc_key"@),
        n.body_loc_args is None ==> !notification_wire(n).dom().contains("body_loc_args"@),
        n.title_loc_key is None ==> !notification_wire(n).dom().contains("title_loc_key"@),
        n.title_loc_args is None ==> !notification_wire(n).dom().contains("title_loc_args"@),
{
    reveal_strlit("title");
    reveal_strlit("body");
    reveal_strlit("icon");
    reveal_strlit("sound");
    reveal_strlit("badge");
    reveal_strlit("tag");
    reveal_strlit("color");
    reveal_strlit("click_action");
    reveal_strlit("body_loc_key");
    reveal_strlit("body_loc_args");
    reveal_strlit("title_loc_key");
    reveal_strlit("title_loc_args");
    assert("title"@.len() == 5 && "body"@.len() == 4 && "icon"@.len() == 4);
    assert("sound"@.len() == 5 && "badge"@.len() == 5 && "tag"@.len() == 3);
    assert("color"@.len() == 5 && "click_action"@.len() == 12);
    assert("body_loc_key"@.len() == 12 && "body_loc_args"@.len() == 13);
    assert("title_loc_key"@.len() == 13 && "title_loc_args"@.len() == 14);
    assert("title"@[0] == 't' && "sound"@[0] == 's' && "badge"@[0] == 'b' && "color"@[0] == 'c');
    assert("body"@[0] == 'b' && "icon"@[0] == 'i');
    assert("click_action"@[0] == 'c' && "body_loc_key"@[0] == 'b');
    assert("body_loc_args"@[0] == 'b' && "title_loc_key"@[0] == 't');
}

/// Law: a set priority renders as the lowercase name of its variant —
/// `"high"` for high, `"normal"` for normal.
pub proof fn lemma_priority_renders_lowercase(m: MessageView)
    ensures
        m.priority matches Some(p) ==> message_wire(m).dom().contains("priority"@)
            && message_wire(m)["priority"@] == (JsonRep::Str { text: priority_wire(p) }),
        priority_wire(Priority::High) == "high"@,
        priority_wire(Priority::Normal) == "normal"@,
{
    reveal_strlit("priority");
    reveal_strlit("registration_ids");
    reveal_strlit("restricted_package_name");
    reveal_strlit("time_to_live");
    reveal_strlit("topic");
    reveal_strlit("mutable_content");
    assert("priority"@.len() == 8 && "registration_ids"@.len() == 16);
    assert("restricted_package_name"@.len() == 23 && "time_to_live"@.len() == 12);
    assert("topic"@.len() == 5 && "mutable_content"@.len() == 15);
}

/// Law: the wire body always has exactly the two top-level keys
/// `validate_only` and `message`, whatever was set on the message.
pub proof fn lemma_body_wire_two_keys(validate_only: bool, m: MessageView)
    ensures
        body_wire(validate_only, m).dom() =~= set!["validate_only"@, "message"@],
{
    reveal_strlit("validate_only");
    reveal_strlit("message");
    assert("validate_only"@.len() == 13 && "message"@.len() == 7);
}

/// Law: setting the same message field twice keeps only the later value —
/// the update with the second value absorbs the update with the first.
pub proof fn lemma_message_last_write_wins(
    m: MessageView,
    s1: Seq<char>,
    s2: Seq<char>,
    b1: bool,
    b2: bool,
    i1: int,
    i2: int,
    p1: Priority,
    p2: Priority,
    d1: JsonRep,
    d2: JsonRep,
    n1: NotificationView,
    n2: NotificationView,
    ids1: Seq<Seq<char>>,
    ids2: Seq<Seq<char>>,
)
    ensures
        (MessageView {
            collapse_key: Some(s2),
            ..(MessageView { collapse_key: Some(s1), ..m })
        }) == (MessageView { collapse_key: Some(s2), ..m }),
        (MessageView {
            content_available: Some(b2),
            ..(MessageView { content_available: Some(b1), ..m })
        }) == (MessageView { content_available: Some(b2), ..m }),
        (MessageView { data: Some(d2), ..(MessageView { data: Some(d1), ..m }) })
            == (MessageView { data: Some(d2), ..m }),
        (MessageView {
            delay_while_idle: Some(b2),
            ..(MessageView { delay_while_idle: Some(b1), ..m })
        }) == (MessageView { delay_while_idle: Some(b2), ..m }),
        (MessageView {
            notification: Some(n2),
            ..(MessageView { notification: Some(n1), ..m })
        }) == (MessageView { notification: Some(n2), ..m }),
        (MessageView { priority: Some(p2), ..(MessageView { priority: Some(p1), ..m }) })
            == (MessageView { priority: Some(p2), ..m }),
        (MessageView {
            registration_ids: Some(ids2),
            ..(MessageView { registration_ids: Some(ids1), ..m })
        }) == (MessageView { registration_ids: Some(ids2), ..m }),
        (MessageView {
            restricted_package_name: Some(s2),
            ..(MessageView { restricted_package_name: Some(s1), ..m })
        }) == (MessageView { restricted_package_name: Some(s2), ..m }),
        (MessageView {
            time_to_live: Some(i2),
            ..(MessageView { time_to_live: Some(i1), ..m })
        }) == (MessageView { time_to_live: Some(i2), ..m }),
        (MessageView { topic: Some(s2), ..(MessageView { topic: Some(s1), ..m }) })
            == (MessageView { topic: Some(s2), ..m }),
        (MessageView {
            mutable_content: Some(b2),
            ..(MessageView { mutable_content: Some(b1), ..m })
        }) == (MessageView { mutable_content: Some(b2), ..m }),
{
}

/// Law: setting the same notification field twice keeps only the later
/// value.
pub proof fn lemma_notification_last_write_wins(
    n: NotificationView,
    s1: Seq<char>,
    s2: Seq<char>,
    a1: Seq<Seq<char>>,
    a2: Seq<Seq<char>>,
)
    ensures
        (NotificationView { title: Some(s2), ..(NotificationView { title: Some(s1), ..n }) })
            == (NotificationView { title: Some(s2), ..n }),
        (NotificationView { body: Some(s2), ..(NotificationView { body: Some(s1), ..n }) })
            == (NotificationView { body: Some(s2), ..n }),
        (NotificationView { icon: Some(s2), ..(NotificationView { icon: Some(s1), ..n }) })
            == (NotificationView { icon: Some(s2), ..n }),
        (NotificationView { sound: Some(s2), ..(NotificationView { sound: Some(s1), ..n }) })
            == (NotificationView { sound: Some(s2), ..n }),
        (NotificationView { badge: Some(s2), ..(NotificationView { badge: Some(s1), ..n }) })
            == (NotificationView { badge: Some(s2), ..n }),
        (NotificationView { tag: Some(s2), ..(NotificationView { tag: Some(s1), ..n }) })
            == (NotificationView { tag: Some(s2), ..n }),
        (NotificationView { color: Some(s2), ..(NotificationView { color: Some(s1), ..n }) })
            == (NotificationView { color: Some(s2), ..n }),
        (NotificationView {
            click_action: Some(s2),
            ..(NotificationView { click_action: Some(s1), ..n })
        }) == (NotificationView { click_action: Some(s2), ..n }),
        (NotificationView {
            body_loc_key: Some(s2),
            ..(NotificationView { body_loc_key: Some(s1), ..n })
        }) == (NotificationView { body_loc_key: Some(s2), ..n }),
        (NotificationView {
            body_loc_args: Some(a2),
            ..(NotificationView { body_loc_args: Some(a1), ..n })
        }) == (NotificationView { body_loc_args: Some(a2), ..n }),
        (NotificationView {
            title_loc_key: Some(s2),
            ..(NotificationView { title_loc_key: Some(s1), ..n })
        }) == (NotificationView { title_loc_key: Some(s2), ..n }),
        (NotificationView {
            title_loc_args: Some(a2),
            ..(NotificationView { title_loc_args: Some(a1), ..n })
        }) == (NotificationView { title_loc_args: Some(a2), ..n }),
{
}

} // verus!
