//! Messages received from the queue, and the log line printed for each.

use vstd::prelude::*;

verus! {

/// One metadata entry attached to a message: an attribute name and its
/// value, as delivered by the queueing service.
#[derive(Debug, PartialEq, Eq)]
pub struct MessageAttribute {
    pub name: String,
    pub value: String,
}

/// Mathematical model of an attribute: both strings as character sequences.
pub ghost struct AttributeModel {
    pub name: Seq<char>,
    pub value: Seq<char>,
}

impl View for MessageAttribute {
    type V = AttributeModel;

    open spec fn view(&self) -> AttributeModel {
        AttributeModel { name: self.name@, value: self.value@ }
    }
}

/// A received unit of work: an opaque body, metadata attributes, a
/// service-assigned identifier used for logging, and the one-time receipt
/// token needed to acknowledge (delete) this delivery. Any of the parts the
/// service treats as optional may be absent.
#[derive(Debug, PartialEq, Eq)]
pub struct Message {
    pub message_id: Option<String>,
    pub body: Option<String>,
    pub message_attributes: Option<Vec<MessageAttribute>>,
    pub receipt_handle: Option<String>,
}

/// Mathematical model of a message: each string part as a character
/// sequence, the attributes — when the service attached a map at all — as
/// a sequence of attribute models.
pub ghost struct MessageModel {
    pub message_id: Option<Seq<char>>,
    pub body: Option<Seq<char>>,
    pub message_attributes: Option<Seq<AttributeModel>>,
    pub receipt_handle: Option<Seq<char>>,
}

/// The model of an optional string: the characters, if the string is there.
pub open spec fn opt_model(o: Option<String>) -> Option<Seq<char>> {
    match o {
        Some(s) => Some(s@),
        None => None,
    }
}

/// The models of a sequence of attributes, in order.
pub open spec fn attrs_model(attrs: Seq<MessageAttribute>) -> Seq<AttributeModel> {
    attrs.map_values(|a: MessageAttribute| a@)
}

/// The models of a sequence of messages, in order.
pub open spec fn msgs_model(msgs: Seq<Message>) -> Seq<MessageModel> {
    msgs.map_values(|m: Message| m@)
}

impl View for Message {
    type V = MessageModel;

    open spec fn view(&self) -> MessageModel {
        MessageModel {
            message_id: opt_model(self.message_id),
            body: opt_model(self.body),
            message_attributes: match self.message_attributes {
                Some(attrs) => Some(attrs_model(attrs@)),
                None => None,
            },
            receipt_handle: opt_model(self.receipt_handle),
        }
    }
}

/// How an optional string is rendered in a log line: `Some("…")` with the
/// characters inside, or `None`.
pub open spec fn option_text(o: Option<Seq<char>>) -> Seq<char> {
    match o {
        Some(s) => "Some(\""@ + s + "\")"@,
        None => "None"@,
    }
}

/// How one attribute is rendered: `"name": "value"`.
pub open spec fn attribute_text(a: AttributeModel) -> Seq<char> {
    "\""@ + a.name + "\": \""@ + a.value + "\""@
}

/// How a sequence of attributes is rendered, in order, separated by `, `.
pub open spec fn attributes_text(attrs: Seq<AttributeModel>) -> Seq<char>
    decreases attrs.len(),
{
    if attrs.len() == 0 {
        Seq::empty()
    } else if attrs.len() == 1 {
        attribute_text(attrs[0])
    } else {
        attributes_text(attrs.drop_last()) + ", "@ + attribute_text(attrs.last())
    }
}

/// How the whole attribute list is rendered: the attributes in braces.
pub open spec fn attributes_block(attrs: Seq<AttributeModel>) -> Seq<char> {
    "{"@ + attributes_text(attrs) + "}"@
}

/// How the attribute part of the log line is rendered: `Some({…})` around
/// the map the service attached, or `None` when it attached none.
pub open spec fn attributes_opt_text(o: Option<Seq<AttributeModel>>) -> Seq<char> {
    match o {
        Some(attrs) => "Some("@ + attributes_block(attrs) + ")"@,
        None => "None"@,
    }
}

/// The full log line printed for one received message: its identifier, its
/// attributes, and its body.
pub open spec fn log_line_text(m: MessageModel) -> Seq<char> {
    "message_id: "@ + option_text(m.message_id) + ", message_attributes: "@
        + attributes_opt_text(m.message_attributes) + ", body: "@ + option_text(m.body)
}

/// Renders an optional string part of the log line.
fn option_part(o: &Option<String>) -> (r: String)
    ensures
        r@ == option_text(opt_model(*o)),
{
    match o {
        Some(s) => {
            let mut r = String::from_str("Some(\"");
            r.append(s.as_str());
            r.append("\")");
            r
        },
        None => String::from_str("None"),
    }
}

/// Renders the attribute list of the log line, braces included.
fn attributes_part(attrs: &Vec<MessageAttribute>) -> (r: String)
    ensures
        r@ == attributes_block(attrs_model(attrs@)),
{
    let ghost model: Seq<AttributeModel> = attrs_model(attrs@);
    let mut r = String::from_str("{");
    let mut i: usize = 0;
    while i < attrs.len()
        invariant
            i <= attrs.len(),
            model == attrs_model(attrs@),
            r@ == "{"@ + attributes_text(model.take(i as int)),
        decreases attrs.len() - i,
    {
        if i > 0 {
            r.append(", ");
        }
        r.append("\"");
        r.append(attrs[i].name.as_str());
        r.append("\": \"");
        r.append(attrs[i].value.as_str());
        r.append("\"");
        proof {
            let taken = model.take(i + 1);
            assert(taken.drop_last() =~= model.take(i as int));
            assert(taken.last() == model[i as int]);
            assert(model[i as int] == attrs@[i as int]@);
            assert(r@ =~= "{"@ + attributes_text(model.take(i + 1)));
        }
        i = i + 1;
    }
    r.append("}");
    proof {
        assert(model.take(i as int) =~= model);
        assert(r@ =~= attributes_block(model));
    }
    r
}

/// Renders the attribute part of the log line: the attached map, or
/// `None` when the service attached none.
fn attributes_opt_part(o: &Option<Vec<MessageAttribute>>) -> (r: String)
    ensures
        r@ == attributes_opt_text(match o {
            Some(attrs) => Some(attrs_model(attrs@)),
            None => None,
        }),
{
    match o {
        Some(attrs) => {
            let mut r = String::from_str("Some(");
            let block = attributes_part(attrs);
            r.append(block.as_str());
            r.append(")");
            r
        },
        None => String::from_str("None"),
    }
}

/// Builds the log line for one message.
///
/// The line carries the message identifier, every attribute in the order
/// delivered, and the body, exactly as `log_line_text` states.
pub fn log_line(m: &Message) -> (r: String)
    ensures
        r@ == log_line_text(m@),
{
    let mut r = String::from_str("message_id: ");
    let id = option_part(&m.message_id);
    r.append(id.as_str());
    r.append(", message_attributes: ");
    let ats = attributes_opt_part(&m.message_attributes);
    r.append(ats.as_str());
    r.append(", body: ");
    let b = option_part(&m.body);
    r.append(b.as_str());
    proof {
        assert(r@ =~= log_line_text(m@));
    }
    r
}

} // verus!
