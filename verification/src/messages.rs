//! Messages on the two web sockets.

use vstd::prelude::*;
use vstd::string::StringExecFns;

verus! {

/// A message between the browser and this program.
#[derive(Debug, PartialEq, Eq)]
pub struct MyMsg {
    /// What the message is.
    pub op: String,
    /// What it carries.
    pub data: String,
}

/// What this program reads of an event of the service.
#[derive(Debug, PartialEq, Eq)]
pub struct OpenApiResp {
    /// What the event is; the field is called `type` on the wire.
    pub typ: String,
    /// The piece of a response that the event carries, if any.
    pub delta: Option<String>,
}

/// What a `MyMsg` holds.
pub struct MyMsgView {
    pub op: Seq<char>,
    pub data: Seq<char>,
}

impl View for MyMsg {
    type V = MyMsgView;

    open spec fn view(&self) -> MyMsgView {
        MyMsgView { op: self.op@, data: self.data@ }
    }
}

/// The message that reports an error.
pub open spec fn error_msg(text: Seq<char>) -> MyMsgView {
    MyMsgView { op: "ERR"@, data: text }
}

/// The view of a message holds what it says it is and what it carries.
pub proof fn law_message_view(msg: MyMsg)
    ensures
        msg@.op == msg.op@,
        msg@.data == msg.data@,
{
}

/// An error is reported by a message `ERR` that carries its text.
pub proof fn law_errors_are_reported(text: Seq<char>)
    ensures
        error_msg(text).op == "ERR"@,
        error_msg(text).data == text,
{
}

impl MyMsg {
    /// Makes a message.
    pub fn new(op: &str, data: String) -> (msg: MyMsg)
        ensures
            msg@ == (MyMsgView { op: op@, data: data@ }),
            msg.op@ == op@,
            msg.data@ == data@,
    {
        MyMsg { op: op.to_string(), data }
    }

    /// Makes the message that reports an error.
    pub fn error(text: String) -> (msg: MyMsg)
        ensures
            msg@ == error_msg(text@),
            msg.op@ == "ERR"@,
            msg.data@ == text@,
    {
        MyMsg::new("ERR", text)
    }
}

/// Tells whether a string holds just this text.
pub fn text_is(text: &String, expected: &str) -> (same: bool)
    ensures
        same == (text@ == expected@),
{
    *text == expected.to_string()
}

/// Puts a label in front of a text.
pub fn labelled(label: &str, text: &str) -> (all: String)
    ensures
        all@ == label@ + text@,
{
    label.to_string().concat(text)
}

} // verus!
