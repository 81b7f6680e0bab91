use vstd::prelude::*;
use vstd::string::*;

verus! {

/// The step of the positional scraping of a release body that found nothing
/// where it expected something.
#[derive(Clone, Copy, Debug, PartialEq, Eq, Structural)]
pub enum FormatStep {
    /// The body has fewer than two lines.
    SecondLine,
    /// The second line has fewer than two space-separated tokens.
    SecondToken,
    /// The second token does not start with `v`.
    Prefix,
}

/// What went wrong, independent of the wording of the message.
#[derive(Clone, Copy, Debug, PartialEq, Eq, Structural)]
pub enum ErrorKind {
    /// A local filesystem access, read or write failed.
    Io,
    /// A connection or transport failed, or a response lacked what was needed.
    Network,
    /// A response was not the expected JSON document.
    Decode,
    /// A response was well-formed, but its text did not have the expected shape.
    Format(FormatStep),
    /// A text that should be a version is none.
    Parse,
    /// No asset of the release has the wanted content type.
    NotFound,
    /// The recorded version is newer than the latest release.
    InconsistentState,
    /// The permission bits of the artifact could not be set.
    Permission,
}

/// One link of a causal chain, as contracts see it.
pub struct ErrorFrame {
    pub kind: ErrorKind,
    pub message: Seq<char>,
}

/// An error with a short description of the operation that failed and,
/// optionally, the error that caused it.
#[derive(Debug, PartialEq, Eq)]
pub struct UpdateError {
    pub kind: ErrorKind,
    pub message: String,
    pub cause: Option<Box<UpdateError>>,
}

impl UpdateError {
    /// The causal chain, outermost description first.
    pub open spec fn frames(&self) -> Seq<ErrorFrame>
        decreases self,
    {
        let head = seq![ErrorFrame { kind: self.kind, message: self.message@ }];
        match self.cause {
            Some(inner) => head + inner.frames(),
            None => head,
        }
    }
}

impl View for UpdateError {
    type V = Seq<ErrorFrame>;

    open spec fn view(&self) -> Seq<ErrorFrame> {
        self.frames()
    }
}

/// The separator between two descriptions of a rendered chain.
pub open spec fn chain_separator() -> Seq<char> {
    seq![':', ' ']
}

/// The descriptions of a chain on one line, outermost first.
pub open spec fn rendered(chain: Seq<ErrorFrame>) -> Seq<char>
    decreases chain.len(),
{
    if chain.len() == 0 {
        Seq::empty()
    } else if chain.len() == 1 {
        chain[0].message
    } else {
        chain[0].message + chain_separator() + rendered(chain.skip(1))
    }
}

impl UpdateError {
    /// An error without a cause.
    pub fn new(kind: ErrorKind, message: &str) -> (e: UpdateError)
        ensures
            e@ == seq![ErrorFrame { kind, message: message@ }],
            e.cause is None,
    {
        UpdateError { kind, message: String::from_str(message), cause: None }
    }

    /// An error of the given kind that another error caused.
    pub fn caused_by(kind: ErrorKind, message: &str, cause: UpdateError) -> (e: UpdateError)
        ensures
            e@ == seq![ErrorFrame { kind, message: message@ }] + cause@,
            e.cause == Some(Box::new(cause)),
    {
        UpdateError { kind, message: String::from_str(message), cause: Some(Box::new(cause)) }
    }

    /// Wraps the error in a description of the operation that failed. The kind
    /// stays that of the error that is wrapped.
    pub fn context(self, message: &str) -> (e: UpdateError)
        ensures
            e@ == seq![ErrorFrame { kind: self.kind, message: message@ }] + self@,
            e.kind == self.kind,
    {
        let kind = self.kind;
        UpdateError { kind, message: String::from_str(message), cause: Some(Box::new(self)) }
    }

    /// The kind of the outermost link.
    pub fn kind(&self) -> (k: ErrorKind)
        ensures
            k == self@[0].kind,
    {
        self.kind
    }

    /// The descriptions of the chain, outermost first.
    pub fn chain(&self) -> (out: Vec<String>)
        ensures
            out@.len() == self@.len(),
            forall|i: int| 0 <= i < out@.len() ==> (#[trigger] out@[i])@ == self@[i].message,
        decreases self,
    {
        let mut out: Vec<String> = Vec::new();
        out.push(self.message.clone());
        match &self.cause {
            None => {},
            Some(inner) => {
                let mut rest = inner.chain();
                let ghost below = rest@;
                out.append(&mut rest);
                assert forall|i: int| 0 <= i < out@.len() implies (#[trigger] out@[i])@
                    == self@[i].message by {
                    if i > 0 {
                        assert(out@[i] == below[i - 1]);
                    }
                }
            },
        }
        out
    }

    /// The innermost link: the error that started the chain.
    pub fn root_cause(&self) -> (root: &UpdateError)
        ensures
            root.cause is None,
            root@ == seq![self@.last()],
        decreases self,
    {
        match &self.cause {
            None => self,
            Some(inner) => inner.root_cause(),
        }
    }

    /// The whole chain on one line: the descriptions, outermost first, with
    /// `": "` between them.
    pub fn render(&self) -> (text: String)
        ensures
            text@ == rendered(self@),
        decreases self,
    {
        let mut text = self.message.clone();
        match &self.cause {
            None => {},
            Some(inner) => {
                let tail = inner.render();
                proof {
                    reveal_strlit(": ");
                    assert(self@.skip(1) =~= inner@);
                    assert(": "@ =~= chain_separator());
                }
                text.append(": ");
                text.append(tail.as_str());
            },
        }
        text
    }
}

/// The chain of an error of `kind` described by `message`, caused by what
/// `cause` describes.
pub open spec fn failure(kind: ErrorKind, message: Seq<char>, cause: Seq<char>) -> Seq<ErrorFrame> {
    seq![ErrorFrame { kind, message }, ErrorFrame { kind, message: cause }]
}

/// `"Failed to access '<path>'"`
pub open spec fn access_failure(path: Seq<char>) -> Seq<char> {
    "Failed to access '"@ + path + "'"@
}

/// `prefix`, `path` and a closing quote.
pub fn quoted(prefix: &str, path: &str) -> (text: String)
    ensures
        text@ == prefix@ + path@ + "'"@,
{
    let mut text = String::from_str(prefix);
    text.append(path);
    text.append("'");
    text
}

/// An error of `kind` described by `message`, caused by what `cause` describes.
pub fn failure_of(kind: ErrorKind, message: &str, cause: &str) -> (e: UpdateError)
    ensures
        e@ == failure(kind, message@, cause@),
{
    let e = UpdateError::caused_by(kind, message, UpdateError::new(kind, cause));
    assert(e@ =~= failure(kind, message@, cause@));
    e
}

/// The error for a path that could not be reached, with what the system said
/// of it.
pub fn access_error(path: &str, cause: &str) -> (e: UpdateError)
    ensures
        e@ == failure(ErrorKind::Io, access_failure(path@), cause@),
{
    let message = quoted("Failed to access '", path);
    failure_of(ErrorKind::Io, message.as_str(), cause)
}

} // verus!
