use vstd::prelude::*;
use vstd::string::*;

verus! {

/// `sub` occurs contiguously somewhere inside `hay`.
pub open spec fn is_substring_of(hay: Seq<char>, sub: Seq<char>) -> bool {
    exists|i: int| 0 <= i && i + sub.len() <= hay.len() && #[trigger] hay.subrange(
        i,
        i + sub.len(),
    ) == sub
}

/// Whatever sits between two other pieces is a substring.
pub proof fn lemma_mid_is_substring(hay: Seq<char>, pre: Seq<char>, sub: Seq<char>, post: Seq<char>)
    requires
        hay == pre + sub + post,
    ensures
        is_substring_of(hay, sub),
{
    let i = pre.len() as int;
    assert(hay.subrange(i, i + sub.len()) =~= sub);
}

/// Why a backend call failed.
#[derive(Clone, Debug)]
pub enum BackendError {
    /// No API key / token is configured for the selected backend; no network
    /// attempt was made.
    MissingCredential { detail: String },
    /// Network or connection failure during an attempt.
    Transport { detail: String },
    /// The response had an unexpected shape (no choices, no content field).
    Protocol { detail: String },
    /// The streaming attempt failed and the single non-streaming fallback
    /// failed too; carries both underlying messages.
    BothAttemptsFailed { stream_error: String, fallback_error: String },
    /// The manager holds no backends.
    NoBackend,
}

/// The composite description used when the streaming attempt and the
/// non-streaming fallback both failed.
pub open spec fn composite_error_text(stream_error: Seq<char>, fallback_error: Seq<char>) -> Seq<
    char,
> {
    "Both streaming and non-streaming requests failed. Streaming error: "@ + stream_error
        + ", non-streaming error: "@ + fallback_error
}

/// The human-readable message of each error, as a sequence of characters.
pub open spec fn spec_message(e: BackendError) -> Seq<char> {
    match e {
        BackendError::MissingCredential { detail } => detail@,
        BackendError::Transport { detail } => detail@,
        BackendError::Protocol { detail } => detail@,
        BackendError::BothAttemptsFailed { stream_error, fallback_error } => composite_error_text(
            stream_error@,
            fallback_error@,
        ),
        BackendError::NoBackend => "No backend available"@,
    }
}

impl BackendError {
    /// A human-readable description of the failure.
    pub fn message(&self) -> (r: String)
        ensures
            r@ == spec_message(*self),
    {
        match self {
            BackendError::MissingCredential { detail } => detail.clone(),
            BackendError::Transport { detail } => detail.clone(),
            BackendError::Protocol { detail } => detail.clone(),
            BackendError::BothAttemptsFailed { stream_error, fallback_error } => {
                let mut r = String::from_str(
                    "Both streaming and non-streaming requests failed. Streaming error: ",
                );
                r.append(stream_error.as_str());
                r.append(", non-streaming error: ");
                r.append(fallback_error.as_str());
                r
            },
            BackendError::NoBackend => String::from_str("No backend available"),
        }
    }
}

/// When both attempts fail, the composite message carries the streaming
/// failure and the fallback failure verbatim, each as a substring.
pub proof fn lemma_composite_message_carries_both(e: BackendError)
    requires
        e is BothAttemptsFailed,
    ensures
        is_substring_of(spec_message(e), e->BothAttemptsFailed_stream_error@),
        is_substring_of(spec_message(e), e->BothAttemptsFailed_fallback_error@),
{
    let pre = "Both streaming and non-streaming requests failed. Streaming error: "@;
    let mid = ", non-streaming error: "@;
    let s = e->BothAttemptsFailed_stream_error@;
    let f = e->BothAttemptsFailed_fallback_error@;
    assert(spec_message(e) =~= pre + s + (mid + f));
    lemma_mid_is_substring(spec_message(e), pre, s, mid + f);
    assert(spec_message(e) =~= (pre + s + mid) + f + Seq::<char>::empty());
    lemma_mid_is_substring(spec_message(e), pre + s + mid, f, Seq::<char>::empty());
}

/// A request to switch the manager to a backend index that does not exist.
#[derive(Clone, Debug, PartialEq, Eq, Structural)]
pub struct IndexError {
    /// The index that was requested.
    pub index: usize,
    /// How many backends the manager held at the time.
    pub len: usize,
}

/// The message an out-of-range switch reports.
pub open spec fn spec_index_error_message(e: IndexError) -> Seq<char> {
    "Backend index "@ + crate::textfmt::dec_digits(e.index as int) + " out of range"@
}

impl IndexError {
    /// A human-readable description of the rejected switch.
    pub fn message(&self) -> (r: String)
        ensures
            r@ == spec_index_error_message(*self),
    {
        let mut r = String::from_str("Backend index ");
        r.append(crate::textfmt::usize_to_string(self.index).as_str());
        r.append(" out of range");
        r
    }
}

} // verus!
