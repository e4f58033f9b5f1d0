//! The inbound callback: the envelope that the chat platform delivers, the
//! command event decoded from its body, and the two checks that an event
//! passes before it is read as a command.

use crate::fault::FieldFault;
use crate::text::{chars_of, has_prefix, same_text, starts_with};
use vstd::prelude::*;
use vstd::string::*;

verus! {

/// The outer document of a callback: the user agent that the caller declares,
/// and the body, which is itself a JSON document written out as text. Either
/// is `None` where the envelope has no string of that name.
#[derive(Debug, PartialEq, Eq)]
pub struct CallbackEnvelope {
    pub user_agent: Option<String>,
    pub body: Option<String>,
}

/// One member of the JSON object in a callback's body: its name and, where
/// its value is a JSON string, the text of that string.
#[derive(Debug, PartialEq, Eq)]
pub struct BodyMember {
    pub name: String,
    pub text: Option<String>,
}

pub struct BodyMemberView {
    pub name: Seq<char>,
    pub text: Option<Seq<char>>,
}

impl View for BodyMember {
    type V = BodyMemberView;

    open spec fn view(&self) -> BodyMemberView {
        BodyMemberView {
            name: self.name@,
            text: match self.text {
                Some(t) => Some(t@),
                None => None,
            },
        }
    }
}

/// The views of the members, in order.
pub open spec fn member_views(members: Seq<BodyMember>) -> Seq<BodyMemberView> {
    members.map_values(|m: BodyMember| m@)
}

/// The fields of a command event without which a reply cannot be made.
#[derive(Clone, Copy, Debug, PartialEq, Eq, Structural)]
pub enum EventField {
    /// The display name of the sender.
    Name,
    /// The identity of the sender.
    SenderId,
}

/// Why a callback could not be answered.
#[derive(Clone, Copy, Debug, PartialEq, Eq, Structural)]
pub enum EventError {
    /// The envelope has no body, or the body is not a JSON document.
    MalformedBody,
    /// A field that the reply needs cannot be used.
    Field { field: EventField, fault: FieldFault },
}

/// A JSON document as far as a callback's body is read: an object with its
/// members, or a document of any other kind.
#[derive(Debug, PartialEq, Eq)]
pub enum BodyDocument {
    Object(Vec<BodyMember>),
    Other,
}

pub enum BodyDocumentView {
    Object(Seq<BodyMemberView>),
    Other,
}

impl View for BodyDocument {
    type V = BodyDocumentView;

    open spec fn view(&self) -> BodyDocumentView {
        match self {
            BodyDocument::Object(members) => BodyDocumentView::Object(member_views(members@)),
            BodyDocument::Other => BodyDocumentView::Other,
        }
    }
}

/// What JSON text decodes to: `None` where `text` is not one JSON document;
/// else the document that it writes, of an object each member with the text
/// of its value where that is a string.
pub uninterp spec fn json_document(text: Seq<char>) -> Option<BodyDocumentView>;

/// No two members have the same name.
pub open spec fn distinct_member_names(members: Seq<BodyMemberView>) -> bool {
    forall|i: int, j: int|
        0 <= i < j < members.len() ==> (#[trigger] members[i]).name != (#[trigger] members[j]).name
}

/// Decodes JSON text with `serde_json::from_str`, as a `serde_json::Value`.
/// The result is a function of the text alone and is named `json_document`:
/// `None` where `from_str` returns an error. Of an object it hands out each
/// member's name and what `Value::as_str` returns of the member's value. The
/// members come out of the map that `serde_json` keeps of an object, which
/// holds each name once.
#[verifier::external_body]
fn decode_json_document(text: &str) -> (document: Option<BodyDocument>)
    ensures
        document matches Some(d) ==> json_document(text@) == Some(d@),
        document matches Some(BodyDocument::Object(ms)) ==> distinct_member_names(
            member_views(ms@),
        ),
        document is None ==> json_document(text@) is None,
{
    match serde_json::from_str::<serde_json::Value>(text) {
        Ok(serde_json::Value::Object(map)) => {
            let member = |(name, value): (&String, &serde_json::Value)|
                BodyMember { name: name.clone(), text: value.as_str().map(str::to_owned) };
            Some(BodyDocument::Object(map.iter().map(member).collect()))
        },
        Ok(_) => Some(BodyDocument::Other),
        Err(_) => None,
    }
}

/// The first member named `name` at or after index `from`.
pub open spec fn find_member(members: Seq<BodyMemberView>, name: Seq<char>, from: int) -> Option<
    BodyMemberView,
>
    decreases members.len() - from,
{
    if 0 <= from < members.len() {
        if members[from].name == name {
            Some(members[from])
        } else {
            find_member(members, name, from + 1)
        }
    } else {
        None
    }
}

/// What is found under a name is a member of that name, the first of the
/// body, and nothing is found exactly when the body has no such member.
/// Among members of distinct names it is the only one of its name.
pub proof fn lemma_find_member(members: Seq<BodyMemberView>, name: Seq<char>, from: int)
    requires
        0 <= from <= members.len(),
    ensures
        match find_member(members, name, from) {
            Some(found) => exists|i: int|
                {
                    &&& from <= i < members.len()
                    &&& #[trigger] members[i] == found
                    &&& found.name == name
                    &&& forall|j: int| from <= j < i ==> (#[trigger] members[j]).name != name
                    &&& distinct_member_names(members) ==> forall|j: int|
                        0 <= j < members.len() && (#[trigger] members[j]).name == name ==> j == i
                },
            None => forall|i: int|
                from <= i < members.len() ==> (#[trigger] members[i]).name != name,
        },
    decreases members.len() - from,
{
    if from < members.len() && members[from].name != name {
        lemma_find_member(members, name, from + 1);
    }
}

/// The text of the member `key` of a body: `Absent` where there is no such
/// member, `WrongType` where its value is not a string.
pub open spec fn body_field(members: Seq<BodyMemberView>, key: Seq<char>) -> Result<
    Seq<char>,
    FieldFault,
> {
    match find_member(members, key, 0) {
        None => Err(FieldFault::Absent),
        Some(member) => match member.text {
            Some(t) => Ok(t),
            None => Err(FieldFault::WrongType),
        },
    }
}

/// The view of a field that may be at fault.
pub open spec fn field_view(field: Result<String, FieldFault>) -> Result<Seq<char>, FieldFault> {
    match field {
        Ok(s) => Ok(s@),
        Err(fault) => Err(fault),
    }
}

/// Reads the member `key` of a decoded body.
pub fn get_from_body_json(members: &Vec<BodyMember>, key: &str) -> (field: Result<
    String,
    FieldFault,
>)
    ensures
        field_view(field) == body_field(member_views(members@), key@),
{
    let ghost views = member_views(members@);
    let mut i: usize = 0;
    while i < members.len()
        invariant
            i <= members@.len(),
            views == member_views(members@),
            find_member(views, key@, 0) == find_member(views, key@, i as int),
        decreases members@.len() - i,
    {
        assert(views[i as int] == members@[i as int]@);
        if same_text(members[i].name.as_str(), key) {
            return match &members[i].text {
                Some(t) => Ok(t.clone()),
                None => Err(FieldFault::WrongType),
            };
        }
        i += 1;
    }
    Err(FieldFault::Absent)
}

/// A command event: who sent what, as one callback declares it. A field of
/// the body that is absent or is not a string holds its fault instead.
#[derive(Debug, PartialEq, Eq)]
pub struct InboundCommandEvent {
    pub source_agent: String,
    pub sender_kind: Result<String, FieldFault>,
    pub sender_identity: Result<String, FieldFault>,
    pub sender_display_name: Result<String, FieldFault>,
    pub command_text: Result<String, FieldFault>,
}

pub struct InboundCommandEventView {
    pub source_agent: Seq<char>,
    pub sender_kind: Result<Seq<char>, FieldFault>,
    pub sender_identity: Result<Seq<char>, FieldFault>,
    pub sender_display_name: Result<Seq<char>, FieldFault>,
    pub command_text: Result<Seq<char>, FieldFault>,
}

impl View for InboundCommandEvent {
    type V = InboundCommandEventView;

    open spec fn view(&self) -> InboundCommandEventView {
        InboundCommandEventView {
            source_agent: self.source_agent@,
            sender_kind: field_view(self.sender_kind),
            sender_identity: field_view(self.sender_identity),
            sender_display_name: field_view(self.sender_display_name),
            command_text: field_view(self.command_text),
        }
    }
}

/// The prefix by which the trusted source names itself.
pub open spec fn trusted_agent_prefix() -> Seq<char> {
    "GroupMeBotNotifier"@
}

/// The text of an optional string, empty where there is none.
pub open spec fn text_or_empty(s: Option<String>) -> Seq<char> {
    match s {
        Some(t) => t@,
        None => Seq::empty(),
    }
}

/// The event that the members of a body make, under the given source agent:
/// `sender_type`, `sender_id`, `name` and `text` are its fields.
pub open spec fn event_of_members(
    source_agent: Seq<char>,
    members: Seq<BodyMemberView>,
) -> InboundCommandEventView {
    InboundCommandEventView {
        source_agent,
        sender_kind: body_field(members, "sender_type"@),
        sender_identity: body_field(members, "sender_id"@),
        sender_display_name: body_field(members, "name"@),
        command_text: body_field(members, "text"@),
    }
}

/// The members that a document has: those of an object, and none of a
/// document of any other kind.
pub open spec fn members_of(document: BodyDocumentView) -> Seq<BodyMemberView> {
    match document {
        BodyDocumentView::Object(members) => members,
        BodyDocumentView::Other => Seq::empty(),
    }
}

/// The event that a decoded body makes, under the given source agent: every
/// field of a body that is no object is absent.
pub open spec fn event_of_document(
    source_agent: Seq<char>,
    document: BodyDocumentView,
) -> InboundCommandEventView {
    event_of_members(source_agent, members_of(document))
}

/// What an envelope decodes to: its body is JSON text, read in a second step;
/// an envelope without a body is read as one with an empty body.
pub open spec fn decode_envelope(user_agent: Seq<char>, body: Seq<char>) -> Result<
    InboundCommandEventView,
    EventError,
> {
    match json_document(body) {
        Some(document) => Ok(event_of_document(user_agent, document)),
        None => Err(EventError::MalformedBody),
    }
}

/// Whether the source agent begins, letter for letter, with the name of the
/// trusted source.
pub open spec fn is_trusted_source(source_agent: Seq<char>) -> bool {
    starts_with(source_agent, trusted_agent_prefix())
}

/// Whether the sender is declared to be of kind `user`; a sender of no
/// declared kind is not.
pub open spec fn is_human_sender(event: InboundCommandEventView) -> bool {
    event.sender_kind == Ok::<Seq<char>, FieldFault>("user"@)
}

/// Whether the envelope comes from the trusted source: its user agent, read
/// as empty where there is none, begins with the trusted name.
pub fn auth_valid_agent(envelope: &CallbackEnvelope) -> (trusted: bool)
    ensures
        trusted == is_trusted_source(text_or_empty(envelope.user_agent)),
{
    let expected = chars_of("GroupMeBotNotifier");
    match &envelope.user_agent {
        Some(agent) => {
            let declared = chars_of(agent.as_str());
            has_prefix(&declared, &expected)
        },
        None => {
            let declared: Vec<char> = Vec::new();
            has_prefix(&declared, &expected)
        },
    }
}

/// Whether a human sent the event.
pub fn check_user_sender(event: &InboundCommandEvent) -> (human: bool)
    ensures
        human == is_human_sender(event@),
{
    match &event.sender_kind {
        Ok(kind) => same_text(kind.as_str(), "user"),
        Err(_) => false,
    }
}

impl InboundCommandEvent {
    /// The event that the members of a decoded body make.
    pub fn from_members(source_agent: String, members: &Vec<BodyMember>) -> (event:
        InboundCommandEvent)
        ensures
            event@ == event_of_members(source_agent@, member_views(members@)),
    {
        InboundCommandEvent {
            source_agent,
            sender_kind: get_from_body_json(members, "sender_type"),
            sender_identity: get_from_body_json(members, "sender_id"),
            sender_display_name: get_from_body_json(members, "name"),
            command_text: get_from_body_json(members, "text"),
        }
    }

    /// The event that a decoded body makes: of an object its members are
    /// read; a document of any other kind has none, so that every field is
    /// absent.
    pub fn from_document(source_agent: String, document: &BodyDocument) -> (event:
        InboundCommandEvent)
        ensures
            event@ == event_of_document(source_agent@, document@),
    {
        match document {
            BodyDocument::Object(members) => InboundCommandEvent::from_members(
                source_agent,
                members,
            ),
            BodyDocument::Other => {
                let none: Vec<BodyMember> = Vec::new();
                assert(member_views(none@) =~= Seq::<BodyMemberView>::empty());
                InboundCommandEvent::from_members(source_agent, &none)
            },
        }
    }

    /// Decodes the body of an envelope, the second of the two documents, into
    /// the event. Fails where the body is missing or is not JSON.
    pub fn decode(envelope: &CallbackEnvelope) -> (r: Result<InboundCommandEvent, EventError>)
        ensures
            r matches Ok(event) ==> decode_envelope(
                text_or_empty(envelope.user_agent),
                text_or_empty(envelope.body),
            ) == Ok::<InboundCommandEventView, EventError>(event@),
            r matches Err(e) ==> decode_envelope(
                text_or_empty(envelope.user_agent),
                text_or_empty(envelope.body),
            ) == Err::<InboundCommandEventView, EventError>(e),
    {
        let source_agent = match &envelope.user_agent {
            Some(agent) => agent.clone(),
            None => String::new(),
        };
        let document = match &envelope.body {
            Some(body) => decode_json_document(body.as_str()),
            None => decode_json_document(""),
        };
        proof {
            reveal_strlit("");
            assert(""@ =~= Seq::<char>::empty());
        }
        match document {
            Some(d) => Ok(InboundCommandEvent::from_document(source_agent, &d)),
            None => Err(EventError::MalformedBody),
        }
    }
}

} // verus!
