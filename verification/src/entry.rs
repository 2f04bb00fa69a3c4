//! The unit of data sent to and received from the service: one embedding
//! vector together with its source text.
//!
//! Embedding values are carried as their decimal wire texts. The boundary
//! that talks to the host environment renders each floating-point value to
//! its shortest decimal form before it reaches this type; here every value
//! must be a JSON number token (or `null`, the wire form of a non-finite
//! value), which is exactly what the verified encoder splices into a body.

use vstd::prelude::*;

use crate::errors::ClientError;
use crate::json::check_number_or_null;
use crate::json::is_number_or_null;

verus! {

/// The mathematical content of an `EmbeddingEntry`: the wire texts of its
/// embedding values, and its source text.
pub struct EntryModel {
    pub embeddings: Seq<Seq<char>>,
    pub text: Seq<char>,
}

/// One embedding vector and its source text.
pub struct EmbeddingEntry {
    /// The embedding values, each as its decimal wire text.
    pub embeddings: Vec<String>,
    /// The source text the vector encodes.
    pub text: String,
}

impl View for EmbeddingEntry {
    type V = EntryModel;

    open spec fn view(&self) -> EntryModel {
        EntryModel { embeddings: self.embeddings.deep_view(), text: self.text@ }
    }
}

impl DeepView for EmbeddingEntry {
    type V = EntryModel;

    open spec fn deep_view(&self) -> EntryModel {
        self.view()
    }
}

/// Every embedding value of the model is a JSON number token or `null`.
pub open spec fn entry_wf(m: EntryModel) -> bool {
    forall|i: int| 0 <= i < m.embeddings.len() ==> is_number_or_null(#[trigger] m.embeddings[i])
}

impl EmbeddingEntry {
    /// Builds an entry from boundary values, rejecting any embedding value
    /// whose text is not a JSON number token or `null`. A rejected value is
    /// a conversion error: it is reported before any request is built.
    pub fn new(embeddings: Vec<String>, text: String) -> (r: Result<EmbeddingEntry, ClientError>)
        ensures
            r is Ok <==> entry_wf(
                EntryModel { embeddings: embeddings.deep_view(), text: text@ },
            ),
            r matches Ok(e) ==> e.embeddings@ == embeddings@ && e.text@ == text@,
            r matches Err(e) ==> e is Conversion,
    {
        let mut i: usize = 0;
        while i < embeddings.len()
            invariant
                i <= embeddings.len(),
                forall|k: int|
                    0 <= k < i ==> is_number_or_null(#[trigger] embeddings.deep_view()[k]),
            decreases embeddings.len() - i,
        {
            if !check_number_or_null(embeddings[i].as_str()) {
                proof {
                    assert(embeddings.deep_view()[i as int] == embeddings@[i as int]@);
                    assert(!is_number_or_null(
                        EntryModel {
                            embeddings: embeddings.deep_view(),
                            text: text@,
                        }.embeddings[i as int],
                    ));
                }
                return Err(ClientError::Conversion);
            }
            proof {
                assert(embeddings.deep_view()[i as int] == embeddings@[i as int]@);
            }
            i += 1;
        }
        Ok(EmbeddingEntry { embeddings, text })
    }

    /// Decides whether every embedding value of this entry is a JSON number
    /// token or `null`.
    pub fn is_wf(&self) -> (b: bool)
        ensures
            b == entry_wf(self@),
    {
        let mut i: usize = 0;
        while i < self.embeddings.len()
            invariant
                i <= self.embeddings.len(),
                forall|k: int|
                    0 <= k < i ==> is_number_or_null(#[trigger] self.embeddings.deep_view()[k]),
            decreases self.embeddings.len() - i,
        {
            if !check_number_or_null(self.embeddings[i].as_str()) {
                proof {
                    assert(self.embeddings.deep_view()[i as int] == self.embeddings@[i as int]@);
                    assert(!is_number_or_null(self@.embeddings[i as int]));
                }
                return false;
            }
            proof {
                assert(self.embeddings.deep_view()[i as int] == self.embeddings@[i as int]@);
            }
            i += 1;
        }
        true
    }
}

} // verus!
