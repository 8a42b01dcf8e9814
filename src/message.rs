use vstd::prelude::*;

verus! {

/// What a message is, mathematically: its role, its text and its attachments.
pub struct MessageView {
    pub role: Seq<char>,
    pub content: Seq<char>,
    pub images: Option<Seq<Seq<char>>>,
}

/// One entry of a conversation.
pub struct Message {
    pub role: String,
    pub content: String,
    pub images: Option<Vec<String>>,
}

pub open spec fn images_view(images: Option<Vec<String>>) -> Option<Seq<Seq<char>>> {
    match images {
        Some(v) => Some(v.deep_view()),
        None => None,
    }
}

impl View for Message {
    type V = MessageView;

    open spec fn view(&self) -> MessageView {
        MessageView { role: self.role@, content: self.content@, images: images_view(self.images) }
    }
}

pub open spec fn system_role() -> Seq<char> {
    "system"@
}

pub open spec fn user_role() -> Seq<char> {
    "user"@
}

pub open spec fn assistant_role() -> Seq<char> {
    "assistant"@
}

/// A message without attachments.
pub open spec fn text_message(role: Seq<char>, content: Seq<char>) -> MessageView {
    MessageView { role, content, images: None }
}

/// The view of every message of a sequence, in order.
pub open spec fn views(msgs: Seq<Message>) -> Seq<MessageView> {
    msgs.map_values(|m: Message| m@)
}

impl Message {
    pub fn system(content: String) -> (r: Message)
        ensures
            r@ == text_message(system_role(), content@),
    {
        Message { role: String::from_str("system"), content, images: None }
    }

    pub fn user(content: String) -> (r: Message)
        ensures
            r@ == text_message(user_role(), content@),
    {
        Message { role: String::from_str("user"), content, images: None }
    }

    pub fn assistant(content: String) -> (r: Message)
        ensures
            r@ == text_message(assistant_role(), content@),
    {
        Message { role: String::from_str("assistant"), content, images: None }
    }

    /// A copy of this message, attachments included.
    pub fn duplicate(&self) -> (r: Message)
        ensures
            r@ == self@,
    {
        let images = match &self.images {
            Some(v) => {
                let c = v.clone();
                assert(c.deep_view() =~= v.deep_view());
                Some(c)
            },
            None => None,
        };
        Message { role: self.role.clone(), content: self.content.clone(), images }
    }
}

/// A copy of a whole sequence of messages.
pub fn copy_messages(msgs: &Vec<Message>) -> (r: Vec<Message>)
    ensures
        views(r@) == views(msgs@),
{
    let mut r: Vec<Message> = Vec::new();
    let mut i: usize = 0;
    while i < msgs.len()
        invariant
            i <= msgs.len(),
            views(r@) == views(msgs@.subrange(0, i as int)),
        decreases msgs.len() - i,
    {
        r.push(msgs[i].duplicate());
        assert(views(msgs@.subrange(0, i + 1)) =~= views(msgs@.subrange(0, i as int)).push(msgs@[i as int]@));
        assert(views(r@) =~= views(msgs@.subrange(0, i as int)).push(msgs@[i as int]@));
        i = i + 1;
    }
    assert(msgs@.subrange(0, msgs.len() as int) =~= msgs@);
    r
}

} // verus!
