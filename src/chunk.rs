//! The decoded shape of one chunk of a streamed completion.
use vstd::prelude::*;

verus! {

/// One decoded unit of the remote stream.
#[derive(Debug, Clone)]
pub struct StreamResponse {
    pub choices: Vec<StreamChoice>,
}

/// One candidate completion inside a chunk.
#[derive(Debug, Clone)]
pub struct StreamChoice {
    pub delta: StreamDelta,
}

/// The incremental part of a candidate: an optional role tag and an optional
/// fragment of text.
#[derive(Debug, Clone)]
pub struct StreamDelta {
    pub role: Option<String>,
    pub content: Option<String>,
}

/// The text delta that a chunk carries: the content of its first candidate,
/// or the empty text where it has no candidate or the candidate no content.
pub open spec fn chunk_text(r: StreamResponse) -> Seq<char> {
    if r.choices@.len() > 0 && r.choices@[0].delta.content is Some {
        r.choices@[0].delta.content.unwrap()@
    } else {
        Seq::empty()
    }
}

impl StreamResponse {
    /// Extracts the text delta of this chunk.
    pub fn parse(&self) -> (r: String)
        ensures
            r@ == chunk_text(*self),
    {
        if self.choices.len() > 0 {
            match &self.choices[0].delta.content {
                Some(c) => c.clone(),
                None => String::new(),
            }
        } else {
            String::new()
        }
    }
}

} // verus!
