//! Conversation items: what a turn's input is made of and what a reply
//! delivers.

use vstd::prelude::*;
use crate::text::text_of;

verus! {

/// One piece of a message's content.
#[derive(Debug, PartialEq, Eq)]
pub enum ContentItem {
    InputText { text: String },
    InputImage { image_url: String },
    OutputText { text: String },
}

/// What a [`ContentItem`] holds.
pub enum ContentItemView {
    InputText { text: Seq<char> },
    InputImage { image_url: Seq<char> },
    OutputText { text: Seq<char> },
}

impl View for ContentItem {
    type V = ContentItemView;

    open spec fn view(&self) -> ContentItemView {
        match *self {
            ContentItem::InputText { text } => ContentItemView::InputText { text: text@ },
            ContentItem::InputImage { image_url } => ContentItemView::InputImage {
                image_url: image_url@,
            },
            ContentItem::OutputText { text } => ContentItemView::OutputText { text: text@ },
        }
    }
}

impl Clone for ContentItem {
    fn clone(&self) -> (r: Self)
        ensures
            r@ == self@,
    {
        match self {
            ContentItem::InputText { text } => ContentItem::InputText { text: text.clone() },
            ContentItem::InputImage { image_url } => ContentItem::InputImage {
                image_url: image_url.clone(),
            },
            ContentItem::OutputText { text } => ContentItem::OutputText { text: text.clone() },
        }
    }
}

/// What each item of a content list holds, in order.
pub open spec fn content_views(items: Seq<ContentItem>) -> Seq<ContentItemView> {
    items.map_values(|c: ContentItem| c@)
}

/// One item of a conversation: a message, a tool call, or its result.
#[derive(Debug, PartialEq, Eq)]
pub enum ResponseItem {
    Message { id: Option<String>, role: String, content: Vec<ContentItem> },
    FunctionCall { id: Option<String>, name: String, arguments: String, call_id: String },
    FunctionCallOutput { call_id: String, output: String },
    Other,
}

/// What a [`ResponseItem`] holds.
pub enum ResponseItemView {
    Message { id: Option<Seq<char>>, role: Seq<char>, content: Seq<ContentItemView> },
    FunctionCall {
        id: Option<Seq<char>>,
        name: Seq<char>,
        arguments: Seq<char>,
        call_id: Seq<char>,
    },
    FunctionCallOutput { call_id: Seq<char>, output: Seq<char> },
    Other,
}

impl View for ResponseItem {
    type V = ResponseItemView;

    open spec fn view(&self) -> ResponseItemView {
        match *self {
            ResponseItem::Message { id, role, content } => ResponseItemView::Message {
                id: text_of(id),
                role: role@,
                content: content_views(content@),
            },
            ResponseItem::FunctionCall { id, name, arguments, call_id } => {
                ResponseItemView::FunctionCall {
                    id: text_of(id),
                    name: name@,
                    arguments: arguments@,
                    call_id: call_id@,
                }
            },
            ResponseItem::FunctionCallOutput { call_id, output } => {
                ResponseItemView::FunctionCallOutput { call_id: call_id@, output: output@ }
            },
            ResponseItem::Other => ResponseItemView::Other,
        }
    }
}

/// A copy of an optional string.
fn clone_text(value: &Option<String>) -> (r: Option<String>)
    ensures
        text_of(r) == text_of(*value),
{
    match value {
        Some(s) => Some(s.clone()),
        None => None,
    }
}

/// A copy of a content list, item by item.
fn clone_content(items: &Vec<ContentItem>) -> (r: Vec<ContentItem>)
    ensures
        content_views(r@) == content_views(items@),
{
    let mut out: Vec<ContentItem> = Vec::new();
    let mut i: usize = 0;
    while i < items.len()
        invariant
            i <= items.len(),
            out@.len() == i,
            forall|k: int| 0 <= k < i ==> out@[k]@ == items@[k]@,
        decreases items.len() - i,
    {
        out.push(items[i].clone());
        i += 1;
    }
    assert(content_views(out@) =~= content_views(items@));
    out
}

impl Clone for ResponseItem {
    fn clone(&self) -> (r: Self)
        ensures
            r@ == self@,
    {
        match self {
            ResponseItem::Message { id, role, content } => ResponseItem::Message {
                id: clone_text(id),
                role: role.clone(),
                content: clone_content(content),
            },
            ResponseItem::FunctionCall { id, name, arguments, call_id } => {
                ResponseItem::FunctionCall {
                    id: clone_text(id),
                    name: name.clone(),
                    arguments: arguments.clone(),
                    call_id: call_id.clone(),
                }
            },
            ResponseItem::FunctionCallOutput { call_id, output } => {
                ResponseItem::FunctionCallOutput {
                    call_id: call_id.clone(),
                    output: output.clone(),
                }
            },
            ResponseItem::Other => ResponseItem::Other,
        }
    }
}

/// What each item of a conversation holds, in order.
pub open spec fn item_views(items: Seq<ResponseItem>) -> Seq<ResponseItemView> {
    items.map_values(|i: ResponseItem| i@)
}

} // verus!
