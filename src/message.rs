use vstd::prelude::*;

verus! {

/// The severity of a message.
#[derive(Clone, Copy, Debug, PartialEq, Eq, Structural)]
pub enum MessageType {
    Info,
    Warning,
    Error,
    Success,
}

/// The tag under which each kind of message is shown.
pub open spec fn type_tag(t: MessageType) -> Seq<char> {
    match t {
        MessageType::Info => "INFO"@,
        MessageType::Warning => "WARN"@,
        MessageType::Error => "ERROR"@,
        MessageType::Success => "SUCCESS"@,
    }
}

/// A message text together with its severity.
pub struct Message {
    pub content: String,
    pub rusttype: MessageType,
}

impl Message {
    pub fn new(content: String, rusttype: MessageType) -> (r: Message)
        ensures
            r.content == content,
            r.rusttype == rusttype,
    {
        Message { content, rusttype }
    }

    /// The tag of the message's severity: "INFO", "WARN", "ERROR" or "SUCCESS".
    pub fn get_type_string(&self) -> (r: String)
        ensures
            r@ == type_tag(self.rusttype),
    {
        match self.rusttype {
            MessageType::Info => String::from_str("INFO"),
            MessageType::Warning => String::from_str("WARN"),
            MessageType::Error => String::from_str("ERROR"),
            MessageType::Success => String::from_str("SUCCESS"),
        }
    }

    /// The message as `[TAG] content`.
    pub fn get_formatted(&self) -> (r: String)
        ensures
            r@ == "["@ + type_tag(self.rusttype) + "] "@ + self.content@,
    {
        let tag = self.get_type_string();
        let mut out = String::from_str("[");
        out.append(tag.as_str());
        out.append("] ");
        out.append(self.content.as_str());
        out
    }
}

/// The sum of two numbers.
pub fn add(a: u32, b: u32) -> (r: u32)
    requires
        a + b <= u32::MAX,
    ensures
        r == a + b,
{
    a + b
}

/// A greeting for `name`, opened by `prefix` where one is given and by
/// "Hello" otherwise.
pub fn create_greeting(name: String, prefix: Option<String>) -> (r: String)
    ensures
        r@ == match prefix {
            Some(p) => p@ + " "@,
            None => "Hello "@,
        } + name@ + ", welcome to NAPI!"@,
{
    let mut out = match prefix {
        Some(p) => {
            let mut s = p;
            s.append(" ");
            s
        },
        None => String::from_str("Hello "),
    };
    out.append(name.as_str());
    out.append(", welcome to NAPI!");
    out
}

/// The `count` consecutive numbers from `start`.
pub fn sequence_from(start: u32, count: u32) -> (r: Vec<u32>)
    requires
        start + count <= u32::MAX + 1,
    ensures
        r@.len() == count,
        forall|i: int| 0 <= i < count ==> r@[i] == start + i,
{
    let mut out: Vec<u32> = Vec::new();
    let mut i: u32 = 0;
    while i < count
        invariant
            i <= count,
            start + count <= u32::MAX + 1,
            out@.len() == i,
            forall|t: int| 0 <= t < i ==> out@[t] == start + t,
        decreases count - i,
    {
        out.push(start + i);
        i += 1;
    }
    out
}

} // verus!
