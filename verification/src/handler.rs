//! The request and the reply of the service, and the decisions between the
//! table lookup and the model call.
use vstd::prelude::*;
use crate::dynamo::{AddressQuery, AttributeView, NAME_INDEX, TABLE_NAME, address_query, name_value};
use crate::name::{extract_name, name_in};

verus! {

/// The request: a free-text command.
#[derive(Debug)]
pub struct IncomingMessage {
    pub command: String,
}

/// The reply: the request's id and the answer.
#[derive(Debug)]
pub struct OutgoingMessage {
    pub req_id: String,
    pub msg: String,
}

/// The query for the address of the customer named in `command`: the
/// customers table, looked up by the name in brackets (the empty name where
/// the command holds none).
pub fn customer_query(command: &str) -> (q: AddressQuery)
    ensures
        q.table_name@ == TABLE_NAME@,
        q.index_name@ == NAME_INDEX@,
        q.key_condition_expression@ == "#nm = :name"@,
        q.name_placeholder@ == "#nm"@,
        q.name_attribute@ == "name"@,
        q.value_placeholder@ == ":name"@,
        q.value@ == name_value(name_in(command@)),
        q.value@ == AttributeView::S(name_in(command@)),
        q.projection_expression@ == "address"@,
{
    let name = extract_name(command);
    address_query(String::from_str(TABLE_NAME), name)
}

/// The text sent to the model: the question and the address found for it.
pub open spec fn augmented_text(command: Seq<char>, address: Seq<char>) -> Seq<char> {
    "Question: "@ + command + " \nAugmented context: "@ + address + "."@
}

/// The text sent to the model holds the whole command and the whole address,
/// each unchanged and in place: `Question: ` (10 characters), the command,
/// ` \nAugmented context: ` (21 characters), the address, and a final `.`.
pub proof fn law_augmented_text_parts(c: Seq<char>, a: Seq<char>)
    ensures
        ({
            let m = augmented_text(c, a);
            let n = c.len() as int;
            let k = a.len() as int;
            &&& m.len() == n + k + 32
            &&& m.subrange(0, 10) == "Question: "@
            &&& m.subrange(10, 10 + n) == c
            &&& m.subrange(10 + n, 31 + n) == " \nAugmented context: "@
            &&& m.subrange(31 + n, 31 + n + k) == a
            &&& m[31 + n + k] == '.'
        }),
{
    reveal_strlit("Question: ");
    reveal_strlit(" \nAugmented context: ");
    reveal_strlit(".");
    let m = augmented_text(c, a);
    let n = c.len() as int;
    let k = a.len() as int;
    let p = "Question: "@;
    let q = " \nAugmented context: "@;
    assert(m == p + c + q + a + "."@);
    assert(m.subrange(0, 10) =~= p);
    assert(m.subrange(10, 10 + n) =~= c);
    assert(m.subrange(10 + n, 31 + n) =~= q);
    assert(m.subrange(31 + n, 31 + n + k) =~= a);
}

/// Builds the text sent to the model from the command and the address.
pub fn augmented_message(command: &str, address: &str) -> (message: String)
    ensures
        message@ == augmented_text(command@, address@),
        message@ == "Question: "@ + command@ + " \nAugmented context: "@ + address@ + "."@,
{
    let mut message = String::from_str("Question: ");
    message.append(command);
    message.append(" \nAugmented context: ");
    message.append(address);
    message.append(".");
    message
}

/// The reply to the request with id `req_id`: the model's answer followed by
/// a full stop.
pub fn outgoing_message(req_id: String, answer: &str) -> (reply: OutgoingMessage)
    ensures
        reply.req_id@ == req_id@,
        reply.msg@ == answer@ + "."@,
{
    let mut msg = String::from_str(answer);
    msg.append(".");
    OutgoingMessage { req_id, msg }
}

} // verus!
