//! The conversation turn handed to the generation collaborator.

use vstd::prelude::*;

verus! {

/// One turn of a conversation with the generation collaborator.
pub struct Message {
    pub role: String,
    pub content: String,
}

impl Message {
    pub fn new(role: String, content: String) -> (m: Message)
        ensures
            m.role == role,
            m.content == content,
    {
        Message { role, content }
    }
}

impl Clone for Message {
    fn clone(&self) -> (m: Self)
        ensures
            m == *self,
    {
        Message { role: self.role.clone(), content: self.content.clone() }
    }
}

} // verus!
