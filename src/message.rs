use vstd::prelude::*;
use vstd::string::StringSliceAdditionalSpecFns;

verus! {

/// One turn of a conversation.
#[derive(Debug, Clone)]
pub struct Message {
    pub role: String,
    pub content: String,
}

/// A message with the `system` role and the given content.
pub fn system_message(content: String) -> (r: Message)
    ensures
        r.role@ == "system"@,
        r.content@ == content@,
{
    Message { role: String::from_str("system"), content }
}

/// Puts `system_message` in front of the conversation.
pub fn process_messages(system_message: Message, messages: Vec<Message>) -> (r: Vec<Message>)
    ensures
        r@ == seq![system_message] + messages@,
{
    let ghost given = messages@;
    let mut messages = messages;
    messages.insert(0, system_message);
    assert(messages@ =~= seq![system_message] + given);
    messages
}

/// The UTF-8 bytes of a request body, as handed to the inference capability.
pub fn prepare_request(body: &str) -> (r: Vec<u8>)
    ensures
        r@ == body.spec_bytes(),
{
    let bytes = body.as_bytes();
    let mut data: Vec<u8> = Vec::new();
    let mut i: usize = 0;
    while i < bytes.len()
        invariant
            i <= bytes@.len(),
            data@ == bytes@.subrange(0, i as int),
        decreases bytes@.len() - i,
    {
        data.push(bytes[i]);
        i = i + 1;
        assert(bytes@.subrange(0, i as int) == bytes@.subrange(0, i - 1) + seq![bytes@[i - 1]]);
    }
    assert(bytes@.subrange(0, bytes@.len() as int) == bytes@);
    data
}

} // verus!
