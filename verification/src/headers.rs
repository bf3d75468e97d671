//! Request headers as plain values, and typed access to them.

use vstd::prelude::*;

verus! {

/// The value of a header.
#[derive(Debug, Clone, PartialEq, Eq)]
pub enum HeaderValue {
    /// A value of visible ASCII characters.
    Text(String),
    /// Any other value. It is not text, and equals no text.
    Opaque,
}

/// One header of a request.
#[derive(Debug, Clone, PartialEq, Eq)]
pub struct Header {
    /// The name, in lower case.
    pub name: String,
    pub value: HeaderValue,
}

/// The headers of a request, in the order in which they were received.
#[derive(Debug, Clone, PartialEq, Eq)]
pub struct Headers {
    pub entries: Vec<Header>,
}

/// The value of the first header named `key`.
pub open spec fn first_named(entries: Seq<Header>, key: Seq<char>) -> Option<HeaderValue>
    decreases entries.len(),
{
    if entries.len() == 0 {
        None
    } else if entries[0].name@ == key {
        Some(entries[0].value)
    } else {
        first_named(entries.drop_first(), key)
    }
}

/// A header read as a flag: set where its value is the text `true`, unset for
/// any other value, unknown where the header is missing.
pub open spec fn flag_of(value: Option<HeaderValue>) -> Option<bool> {
    match value {
        Some(HeaderValue::Text(text)) => Some(text@ == "true"@),
        Some(HeaderValue::Opaque) => Some(false),
        None => None,
    }
}

/// A header read as text: its value where that is text, nothing otherwise.
pub open spec fn text_of(value: Option<HeaderValue>) -> Option<String> {
    match value {
        Some(HeaderValue::Text(text)) => Some(text),
        _ => None,
    }
}

/// Typed access to the headers of a request.
pub trait TypedHeaderValues {
    fn bool(&self, key: &str) -> Option<bool>;

    fn string(&self, key: &str) -> Option<String>;
}

impl Headers {
    /// The value of the first header named `key`.
    pub fn get(&self, key: &str) -> (value: Option<&HeaderValue>)
        ensures
            match value {
                Some(found) => first_named(self.entries@, key@) == Some(*found),
                None => first_named(self.entries@, key@) is None,
            },
    {
        let wanted: String = key.to_owned();
        let mut i: usize = 0;
        assert(self.entries@.skip(0) =~= self.entries@);
        while i < self.entries.len()
            invariant
                i <= self.entries@.len(),
                wanted@ == key@,
                first_named(self.entries@, key@) == first_named(
                    self.entries@.skip(i as int),
                    key@,
                ),
            decreases self.entries@.len() - i,
        {
            let ghost rest = self.entries@.skip(i as int);
            assert(rest[0] == self.entries@[i as int]);
            assert(rest.drop_first() =~= self.entries@.skip(i + 1));
            if self.entries[i].name == wanted {
                return Some(&self.entries[i].value);
            }
            i = i + 1;
        }
        None
    }
}

impl TypedHeaderValues for Headers {
    fn bool(&self, key: &str) -> (flag: Option<bool>)
        ensures
            flag == flag_of(first_named(self.entries@, key@)),
    {
        match self.get(key) {
            Some(HeaderValue::Text(text)) => {
                let yes: String = "true".to_owned();
                Some(*text == yes)
            },
            Some(HeaderValue::Opaque) => Some(false),
            None => None,
        }
    }

    fn string(&self, key: &str) -> (text: Option<String>)
        ensures
            text == text_of(first_named(self.entries@, key@)),
    {
        match self.get(key) {
            Some(HeaderValue::Text(text)) => Some(text.clone()),
            _ => None,
        }
    }
}

} // verus!
