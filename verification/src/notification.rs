//! The optional user-visible notification payload and its builder.
//!
//! Every field is independently optional; a field that was never set is
//! omitted from the rendered JSON object entirely.

use vstd::prelude::*;

use crate::json::{json_arr, json_obj, json_str, push_entry, rep, JsonRep};

verus! {

/// An immutable notification payload: whatever fields its builder set.
#[derive(Debug, PartialEq)]
pub struct Notification {
    pub title: Option<String>,
    pub body: Option<String>,
    pub icon: Option<String>,
    pub sound: Option<String>,
    pub badge: Option<String>,
    pub tag: Option<String>,
    pub color: Option<String>,
    pub click_action: Option<String>,
    pub body_loc_key: Option<String>,
    pub body_loc_args: Option<Vec<String>>,
    pub title_loc_key: Option<String>,
    pub title_loc_args: Option<Vec<String>>,
}

/// The mathematical value of a [`Notification`].
pub struct NotificationView {
    pub title: Option<Seq<char>>,
    pub body: Option<Seq<char>>,
    pub icon: Option<Seq<char>>,
    pub sound: Option<Seq<char>>,
    pub badge: Option<Seq<char>>,
    pub tag: Option<Seq<char>>,
    pub color: Option<Seq<char>>,
    pub click_action: Option<Seq<char>>,
    pub body_loc_key: Option<Seq<char>>,
    pub body_loc_args: Option<Seq<Seq<char>>>,
    pub title_loc_key: Option<Seq<char>>,
    pub title_loc_args: Option<Seq<Seq<char>>>,
}

impl View for Notification {
    type V = NotificationView;

    open spec fn view(&self) -> NotificationView {
        NotificationView {
            title: self.title.deep_view(),
            body: self.body.deep_view(),
            icon: self.icon.deep_view(),
            sound: self.sound.deep_view(),
            badge: self.badge.deep_view(),
            tag: self.tag.deep_view(),
            color: self.color.deep_view(),
            click_action: self.click_action.deep_view(),
            body_loc_key: self.body_loc_key.deep_view(),
            body_loc_args: self.body_loc_args.deep_view(),
            title_loc_key: self.title_loc_key.deep_view(),
            title_loc_args: self.title_loc_args.deep_view(),
        }
    }
}

/// The notification view with every field absent.
pub open spec fn notification_none() -> NotificationView {
    NotificationView {
        title: None,
        body: None,
        icon: None,
        sound: None,
        badge: None,
        tag: None,
        color: None,
        click_action: None,
        body_loc_key: None,
        body_loc_args: None,
        title_loc_key: None,
        title_loc_args: None,
    }
}

/// The JSON value of a list of strings.
pub open spec fn str_list_rep(items: Seq<Seq<char>>) -> JsonRep {
    JsonRep::Arr { items: items.map_values(|s: Seq<char>| JsonRep::Str { text: s }) }
}

/// The JSON object a notification renders to: one entry for each field that
/// was set, under the field's wire key, and nothing else.
pub open spec fn notification_wire(n: NotificationView) -> Map<Seq<char>, JsonRep> {
    let e = Map::<Seq<char>, JsonRep>::empty();
    let e = match n.title {
        Some(s) => e.insert("title"@, JsonRep::Str { text: s }),
        None => e,
    };
    let e = match n.body {
        Some(s) => e.insert("body"@, JsonRep::Str { text: s }),
        None => e,
    };
    let e = match n.icon {
        Some(s) => e.insert("icon"@, JsonRep::Str { text: s }),
        None => e,
    };
    let e = match n.sound {
        Some(s) => e.insert("sound"@, JsonRep::Str { text: s }),
        None => e,
    };
    let e = match n.badge {
        Some(s) => e.insert("badge"@, JsonRep::Str { text: s }),
        None => e,
    };
    let e = match n.tag {
        Some(s) => e.insert("tag"@, JsonRep::Str { text: s }),
        None => e,
    };
    let e = match n.color {
        Some(s) => e.insert("color"@, JsonRep::Str { text: s }),
        None => e,
    };
    let e = match n.click_action {
        Some(s) => e.insert("click_action"@, JsonRep::Str { text: s }),
        None => e,
    };
    let e = match n.body_loc_key {
        Some(s) => e.insert("body_loc_key"@, JsonRep::Str { text: s }),
        None => e,
    };
    let e = match n.body_loc_args {
        Some(items) => e.insert("body_loc_args"@, str_list_rep(items)),
        None => e,
    };
    let e = match n.title_loc_key {
        Some(s) => e.insert("title_loc_key"@, JsonRep::Str { text: s }),
        None => e,
    };
    let e = match n.title_loc_args {
        Some(items) => e.insert("title_loc_args"@, str_list_rep(items)),
        None => e,
    };
    e
}

/// Renders a list of strings as a JSON array value.
pub fn str_list_to_value(items: &Vec<String>) -> (v: serde_json::Value)
    ensures
        rep(v) == str_list_rep(items.deep_view()),
{
    let mut vals: Vec<serde_json::Value> = Vec::new();
    let mut idx: usize = 0;
    while idx < items.len()
        invariant
            idx <= items.len(),
            vals@.len() == idx,
            forall|j: int|
                0 <= j < idx as int ==> rep(#[trigger] vals@[j]) == (JsonRep::Str {
                    text: items.deep_view()[j],
                }),
        decreases items.len() - idx,
    {
        vals.push(json_str(items[idx].as_str()));
        idx = idx + 1;
    }
    proof {
        assert(vals@.map_values(|x: serde_json::Value| rep(x)) =~= items.deep_view().map_values(
            |s: Seq<char>| JsonRep::Str { text: s },
        ));
    }
    json_arr(vals)
}

/// Renders a notification as a JSON object value holding exactly the fields
/// that were set.
pub fn notification_to_value(n: &Notification) -> (v: serde_json::Value)
    ensures
        rep(v) == (JsonRep::Obj { entries: notification_wire(n@) }),
{
    let mut entries: Vec<(String, serde_json::Value)> = Vec::new();
    match &n.title {
        Some(s) => push_entry(&mut entries, "title", json_str(s.as_str())),
        None => {},
    }
    match &n.body {
        Some(s) => push_entry(&mut entries, "body", json_str(s.as_str())),
        None => {},
    }
    match &n.icon {
        Some(s) => push_entry(&mut entries, "icon", json_str(s.as_str())),
        None => {},
    }
    match &n.sound {
        Some(s) => push_entry(&mut entries, "sound", json_str(s.as_str())),
        None => {},
    }
    match &n.badge {
        Some(s) => push_entry(&mut entries, "badge", json_str(s.as_str())),
        None => {},
    }
    match &n.tag {
        Some(s) => push_entry(&mut entries, "tag", json_str(s.as_str())),
        None => {},
    }
    match &n.color {
        Some(s) => push_entry(&mut entries, "color", json_str(s.as_str())),
        None => {},
    }
    match &n.click_action {
        Some(s) => push_entry(&mut entries, "click_action", json_str(s.as_str())),
        None => {},
    }
    match &n.body_loc_key {
        Some(s) => push_entry(&mut entries, "body_loc_key", json_str(s.as_str())),
        None => {},
    }
    match &n.body_loc_args {
        Some(items) => push_entry(&mut entries, "body_loc_args", str_list_to_value(items)),
        None => {},
    }
    match &n.title_loc_key {
        Some(s) => push_entry(&mut entries, "title_loc_key", json_str(s.as_str())),
        None => {},
    }
    match &n.title_loc_args {
        Some(items) => push_entry(&mut entries, "title_loc_args", str_list_to_value(items)),
        None => {},
    }
    json_obj(entries)
}

/// Accumulates notification fields; [`NotificationBuilder::finalize`] turns
/// the accumulated fields into an immutable [`Notification`].
#[derive(Debug)]
pub struct NotificationBuilder {
    title: Option<String>,
    body: Option<String>,
    icon: Option<String>,
    sound: Option<String>,
    badge: Option<String>,
    tag: Option<String>,
    color: Option<String>,
    click_action: Option<String>,
    body_loc_key: Option<String>,
    body_loc_args: Option<Vec<String>>,
    title_loc_key: Option<String>,
    title_loc_args: Option<Vec<String>>,
}

impl View for NotificationBuilder {
    type V = NotificationView;

    closed spec fn view(&self) -> NotificationView {
        NotificationView {
            title: self.title.deep_view(),
            body: self.body.deep_view(),
            icon: self.icon.deep_view(),
            sound: self.sound.deep_view(),
            badge: self.badge.deep_view(),
            tag: self.tag.deep_view(),
            color: self.color.deep_view(),
            click_action: self.click_action.deep_view(),
            body_loc_key: self.body_loc_key.deep_view(),
            body_loc_args: self.body_loc_args.deep_view(),
            title_loc_key: self.title_loc_key.deep_view(),
            title_loc_args: self.title_loc_args.deep_view(),
        }
    }
}

impl NotificationBuilder {
    /// A builder with every field absent.
    pub fn new() -> (r: NotificationBuilder)
        ensures
            r@ == notification_none(),
    {
        NotificationBuilder {
            title: None,
            body: None,
            icon: None,
            sound: None,
            badge: None,
            tag: None,
            color: None,
            click_action: None,
            body_loc_key: None,
            body_loc_args: None,
            title_loc_key: None,
            title_loc_args: None,
        }
    }

    /// Sets the title, overwriting any earlier value.
    pub fn title(&mut self, title: &str)
        ensures
            final(self)@ == (NotificationView { title: Some(title@), ..old(self)@ }),
    {
        self.title = Some(title.to_owned());
    }

    /// Sets the body text, overwriting any earlier value.
    pub fn body(&mut self, body: &str)
        ensures
            final(self)@ == (NotificationView { body: Some(body@), ..old(self)@ }),
    {
        self.body = Some(body.to_owned());
    }

    /// Sets the icon, overwriting any earlier value.
    pub fn icon(&mut self, icon: &str)
        ensures
            final(self)@ == (NotificationView { icon: Some(icon@), ..old(self)@ }),
    {
        self.icon = Some(icon.to_owned());
    }

    /// Sets the sound, overwriting any earlier value.
    pub fn sound(&mut self, sound: &str)
        ensures
            final(self)@ == (NotificationView { sound: Some(sound@), ..old(self)@ }),
    {
        self.sound = Some(sound.to_owned());
    }

    /// Sets the badge, overwriting any earlier value.
    pub fn badge(&mut self, badge: &str)
        ensures
            final(self)@ == (NotificationView { badge: Some(badge@), ..old(self)@ }),
    {
        self.badge = Some(badge.to_owned());
    }

    /// Sets the tag, overwriting any earlier value.
    pub fn tag(&mut self, tag: &str)
        ensures
            final(self)@ == (NotificationView { tag: Some(tag@), ..old(self)@ }),
    {
        self.tag = Some(tag.to_owned());
    }

    /// Sets the color, overwriting any earlier value.
    pub fn color(&mut self, color: &str)
        ensures
            final(self)@ == (NotificationView { color: Some(color@), ..old(self)@ }),
    {
        self.color = Some(color.to_owned());
    }

    /// Sets the click action, overwriting any earlier value.
    pub fn click_action(&mut self, click_action: &str)
        ensures
            final(self)@ == (NotificationView {
                click_action: Some(click_action@),
                ..old(self)@
            }),
    {
        self.click_action = Some(click_action.to_owned());
    }

    /// Sets the body localization key, overwriting any earlier value.
    pub fn body_loc_key(&mut self, body_loc_key: &str)
        ensures
            final(self)@ == (NotificationView {
                body_loc_key: Some(body_loc_key@),
                ..old(self)@
            }),
    {
        self.body_loc_key = Some(body_loc_key.to_owned());
    }

    /// Sets the body localization arguments, overwriting any earlier value.
    pub fn body_loc_args(&mut self, body_loc_args: Vec<String>)
        ensures
            final(self)@ == (NotificationView {
                body_loc_args: Some(body_loc_args.deep_view()),
                ..old(self)@
            }),
    {
        self.body_loc_args = Some(body_loc_args);
    }

    /// Sets the title localization key, overwriting any earlier value.
    pub fn title_loc_key(&mut self, title_loc_key: &str)
        ensures
            final(self)@ == (NotificationView {
                title_loc_key: Some(title_loc_key@),
                ..old(self)@
            }),
    {
        self.title_loc_key = Some(title_loc_key.to_owned());
    }

    /// Sets the title localization arguments, overwriting any earlier value.
    pub fn title_loc_args(&mut self, title_loc_args: Vec<String>)
        ensures
            final(self)@ == (NotificationView {
                title_loc_args: Some(title_loc_args.deep_view()),
                ..old(self)@
            }),
    {
        self.title_loc_args = Some(title_loc_args);
    }

    /// Snapshots the accumulated fields into an immutable [`Notification`].
    pub fn finalize(self) -> (r: Notification)
        ensures
            r@ == self@,
    {
        Notification {
            title: self.title,
            body: self.body,
            icon: self.icon,
            sound: self.sound,
            badge: self.badge,
            tag: self.tag,
            color: self.color,
            click_action: self.click_action,
            body_loc_key: self.body_loc_key,
            body_loc_args: self.body_loc_args,
            title_loc_key: self.title_loc_key,
            title_loc_args: self.title_loc_args,
        }
    }
}

} // verus!
