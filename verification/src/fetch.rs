//! Fetching a receipt: where to get it from, and how much of it to take.

use vstd::prelude::*;

use crate::error::VerifierError;
use crate::error::VerifierErrorView;
use crate::text::starts_with;
use crate::text::trim_start_matches;
use crate::text::without_leading;

verus! {

/// The URL to request for a receipt locator: a gateway address for an
/// `ipfs://` locator, the locator itself for `http://` and `https://`,
/// `None` for any other.
pub open spec fn receipt_url(locator: Seq<char>, gateway: Seq<char>) -> Option<Seq<char>> {
    if "ipfs://"@.is_prefix_of(locator) {
        Some(gateway + "/ipfs/"@ + without_leading(locator, "ipfs://"@))
    } else if "http://"@.is_prefix_of(locator) || "https://"@.is_prefix_of(locator) {
        Some(locator)
    } else {
        None
    }
}

/// Resolves a receipt locator to the URL that is to be requested.
pub fn resolve_receipt_url(locator: &str, ipfs_gateway: &str) -> (res: Result<
    String,
    VerifierError,
>)
    ensures
        match res {
            Ok(url) => receipt_url(locator@, ipfs_gateway@) == Some(url@),
            Err(e) => {
                &&& receipt_url(locator@, ipfs_gateway@) is None
                &&& e@ == VerifierErrorView::UnsupportedScheme(locator@)
            },
        },
{
    if starts_with(locator, "ipfs://") {
        let hash = trim_start_matches(locator, "ipfs://");
        let mut url = String::from_str(ipfs_gateway);
        url.append("/ipfs/");
        url.append(hash);
        Ok(url)
    } else if starts_with(locator, "http://") || starts_with(locator, "https://") {
        Ok(String::from_str(locator))
    } else {
        Err(VerifierError::UnsupportedScheme(String::from_str(locator)))
    }
}

/// The bytes of a fetched receipt. It is never longer than the ceiling it
/// was fetched under.
pub struct RawArtifact {
    bytes: Vec<u8>,
    ceiling: usize,
}

impl RawArtifact {
    #[verifier::type_invariant]
    pub closed spec fn wf(self) -> bool {
        self.bytes@.len() <= self.ceiling
    }

    /// The bytes of the artifact.
    pub closed spec fn content(self) -> Seq<u8> {
        self.bytes@
    }

    /// The ceiling the artifact was fetched under.
    pub closed spec fn limit(self) -> usize {
        self.ceiling
    }

    /// Takes `bytes` as an artifact unless they are longer than `max_size`.
    pub fn new(bytes: Vec<u8>, max_size: usize) -> (res: Result<RawArtifact, VerifierError>)
        ensures
            match res {
                Ok(artifact) => {
                    &&& bytes@.len() <= max_size
                    &&& artifact.content() == bytes@
                    &&& artifact.limit() == max_size
                },
                Err(e) => {
                    &&& bytes@.len() > max_size
                    &&& e@ == (VerifierErrorView::ReceiptTooLarge {
                        size: bytes.len(),
                        max: max_size,
                    })
                },
            },
    {
        if bytes.len() > max_size {
            Err(VerifierError::ReceiptTooLarge { size: bytes.len(), max: max_size })
        } else {
            Ok(RawArtifact { bytes, ceiling: max_size })
        }
    }

    /// The bytes of the artifact.
    pub fn as_slice(&self) -> (bytes: &[u8])
        ensures
            bytes@ == self.content(),
            bytes@.len() <= self.limit(),
    {
        proof {
            use_type_invariant(self);
        }
        self.bytes.as_slice()
    }

    /// Gives the bytes of the artifact out.
    pub fn into_bytes(self) -> (bytes: Vec<u8>)
        ensures
            bytes@ == self.content(),
            bytes@.len() <= self.limit(),
    {
        proof {
            use_type_invariant(&self);
        }
        self.bytes
    }

    /// The number of bytes of the artifact.
    pub fn size(&self) -> (n: usize)
        ensures
            n == self.content().len(),
            n <= self.limit(),
    {
        proof {
            use_type_invariant(self);
        }
        self.bytes.len()
    }
}

/// Collects the body of a response piece by piece and refuses the piece
/// that would take it over the ceiling.
pub struct ArtifactReader {
    buffer: Vec<u8>,
    ceiling: usize,
}

impl ArtifactReader {
    #[verifier::type_invariant]
    pub closed spec fn wf(self) -> bool {
        self.buffer@.len() <= self.ceiling
    }

    /// The bytes collected so far.
    pub closed spec fn collected(self) -> Seq<u8> {
        self.buffer@
    }

    /// The ceiling of the reader.
    pub closed spec fn limit(self) -> usize {
        self.ceiling
    }

    /// Makes a reader that has collected nothing yet.
    pub fn new(max_size: usize) -> (reader: ArtifactReader)
        ensures
            reader.collected() == Seq::<u8>::empty(),
            reader.limit() == max_size,
    {
        ArtifactReader { buffer: Vec::new(), ceiling: max_size }
    }

    /// Takes one more piece of the body and gives the reader back with it.
    /// A piece that would take the body over the ceiling ends the reading:
    /// nothing of it is kept, and the size that is reported is what the
    /// body would have had, as far as `usize` holds it.
    pub fn accept(self, chunk: &[u8]) -> (res: Result<ArtifactReader, VerifierError>)
        ensures
            match res {
                Ok(next) => {
                    &&& self.collected().len() + chunk@.len() <= self.limit()
                    &&& next.collected() == self.collected() + chunk@
                    &&& next.limit() == self.limit()
                },
                Err(e) => {
                    &&& self.collected().len() + chunk@.len() > self.limit()
                    &&& e@ == (VerifierErrorView::ReceiptTooLarge {
                        size: if self.collected().len() + chunk@.len() <= usize::MAX {
                            (self.collected().len() + chunk@.len()) as usize
                        } else {
                            usize::MAX
                        },
                        max: self.limit(),
                    })
                },
            },
    {
        proof {
            use_type_invariant(&self);
        }
        let ceiling = self.ceiling;
        let mut buffer = self.buffer;
        let room = ceiling - buffer.len();
        if chunk.len() > room {
            let size = if chunk.len() <= usize::MAX - buffer.len() {
                buffer.len() + chunk.len()
            } else {
                usize::MAX
            };
            Err(VerifierError::ReceiptTooLarge { size, max: ceiling })
        } else {
            buffer.extend_from_slice(chunk);
            Ok(ArtifactReader { buffer, ceiling })
        }
    }

    /// Ends the reading: what was collected is the artifact.
    pub fn finish(self) -> (artifact: RawArtifact)
        ensures
            artifact.content() == self.collected(),
            artifact.limit() == self.limit(),
            artifact.content().len() <= artifact.limit(),
    {
        proof {
            use_type_invariant(&self);
        }
        RawArtifact { bytes: self.buffer, ceiling: self.ceiling }
    }
}

/// No artifact is longer than the ceiling it was fetched under.
pub proof fn lemma_artifact_within_ceiling(artifact: RawArtifact)
    requires
        artifact.wf(),
    ensures
        artifact.content().len() <= artifact.limit(),
{
}

/// A reader never holds more than its ceiling, so neither does the
/// artifact it ends in.
pub proof fn lemma_reader_within_ceiling(reader: ArtifactReader)
    requires
        reader.wf(),
    ensures
        reader.collected().len() <= reader.limit(),
{
}

} // verus!
