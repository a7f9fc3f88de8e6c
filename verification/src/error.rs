//! The error taxonomy: every failure raised by the device SDK is one of a
//! closed set of kinds, told apart by the prefix of its message text.

use vstd::prelude::*;
use vstd::string::*;
use vstd::utf8::*;

verus! {

/// The classes of failure that the device SDK raises.
#[derive(Clone, Copy, Debug, PartialEq, Eq, Structural)]
pub enum ErrorKind {
    AccessException,
    BadAllocException,
    DynamicCastException,
    LogicalErrorException,
    OutOfRangeException,
    PropertyException,
    TimeoutException,
    RuntimeException,
    GenericException,
    StdCppException,
    AviWriterFatalException,
}

/// The family of target platforms. It selects the readiness bridge and
/// decides whether the writer-fatal failure class exists.
#[derive(Clone, Copy, Debug, PartialEq, Eq, Structural)]
pub enum Platform {
    Posix,
    Windows,
}

/// The text that opens the message of every failure of `kind`.
pub open spec fn prefix_of(kind: ErrorKind) -> Seq<char> {
    match kind {
        ErrorKind::AccessException => "Pylon::AccessException: "@,
        ErrorKind::BadAllocException => "Pylon::BadAllocException: "@,
        ErrorKind::DynamicCastException => "Pylon::DynamicCastException: "@,
        ErrorKind::LogicalErrorException => "Pylon::LogicalErrorException: "@,
        ErrorKind::OutOfRangeException => "Pylon::OutOfRangeException: "@,
        ErrorKind::PropertyException => "Pylon::PropertyException: "@,
        ErrorKind::TimeoutException => "Pylon::TimeoutException: "@,
        ErrorKind::RuntimeException => "Pylon::RuntimeException: "@,
        ErrorKind::GenericException => "Pylon::GenericException: "@,
        ErrorKind::StdCppException => "std::exception: "@,
        ErrorKind::AviWriterFatalException => "Pylon::AviWriterFatalException: "@,
    }
}

/// Whether failures of `kind` can be raised on `platform`.
pub open spec fn raised_on(kind: ErrorKind, platform: Platform) -> bool {
    kind == ErrorKind::AviWriterFatalException ==> platform == Platform::Windows
}

/// Whether `what` is the message of a failure of `kind` on `platform`.
pub open spec fn announces(what: Seq<char>, kind: ErrorKind, platform: Platform) -> bool {
    raised_on(kind, platform) && prefix_of(kind).is_prefix_of(what)
}

/// The kind that the message `what` announces on `platform`, if any.
pub open spec fn kind_of(what: Seq<char>, platform: Platform) -> Option<ErrorKind> {
    if announces(what, ErrorKind::AccessException, platform) {
        Some(ErrorKind::AccessException)
    } else if announces(what, ErrorKind::BadAllocException, platform) {
        Some(ErrorKind::BadAllocException)
    } else if announces(what, ErrorKind::DynamicCastException, platform) {
        Some(ErrorKind::DynamicCastException)
    } else if announces(what, ErrorKind::LogicalErrorException, platform) {
        Some(ErrorKind::LogicalErrorException)
    } else if announces(what, ErrorKind::OutOfRangeException, platform) {
        Some(ErrorKind::OutOfRangeException)
    } else if announces(what, ErrorKind::PropertyException, platform) {
        Some(ErrorKind::PropertyException)
    } else if announces(what, ErrorKind::TimeoutException, platform) {
        Some(ErrorKind::TimeoutException)
    } else if announces(what, ErrorKind::RuntimeException, platform) {
        Some(ErrorKind::RuntimeException)
    } else if announces(what, ErrorKind::GenericException, platform) {
        Some(ErrorKind::GenericException)
    } else if announces(what, ErrorKind::StdCppException, platform) {
        Some(ErrorKind::StdCppException)
    } else if announces(what, ErrorKind::AviWriterFatalException, platform) {
        Some(ErrorKind::AviWriterFatalException)
    } else {
        None
    }
}

/// The message `what` of a failure of `kind` without the prefix that
/// announced the kind.
pub open spec fn body_of(what: Seq<char>, kind: ErrorKind) -> Seq<char> {
    what.skip(prefix_of(kind).len() as int)
}

/// Three characters of a message that tell the prefixes apart: the first,
/// the eighth and the ninth.
spec fn marks_of(kind: ErrorKind) -> (char, char, char) {
    match kind {
        ErrorKind::AccessException => ('P', 'A', 'c'),
        ErrorKind::BadAllocException => ('P', 'B', 'a'),
        ErrorKind::DynamicCastException => ('P', 'D', 'y'),
        ErrorKind::LogicalErrorException => ('P', 'L', 'o'),
        ErrorKind::OutOfRangeException => ('P', 'O', 'u'),
        ErrorKind::PropertyException => ('P', 'P', 'r'),
        ErrorKind::TimeoutException => ('P', 'T', 'i'),
        ErrorKind::RuntimeException => ('P', 'R', 'u'),
        ErrorKind::GenericException => ('P', 'G', 'e'),
        ErrorKind::StdCppException => ('s', 'c', 'e'),
        ErrorKind::AviWriterFatalException => ('P', 'A', 'v'),
    }
}

proof fn lemma_marks(what: Seq<char>, kind: ErrorKind)
    requires
        prefix_of(kind).is_prefix_of(what),
    ensures
        what.len() > 8,
        (what[0], what[7], what[8]) == marks_of(kind),
{
    let prefix = prefix_of(kind);
    match kind {
        ErrorKind::AccessException => reveal_strlit("Pylon::AccessException: "),
        ErrorKind::BadAllocException => reveal_strlit("Pylon::BadAllocException: "),
        ErrorKind::DynamicCastException => reveal_strlit("Pylon::DynamicCastException: "),
        ErrorKind::LogicalErrorException => reveal_strlit("Pylon::LogicalErrorException: "),
        ErrorKind::OutOfRangeException => reveal_strlit("Pylon::OutOfRangeException: "),
        ErrorKind::PropertyException => reveal_strlit("Pylon::PropertyException: "),
        ErrorKind::TimeoutException => reveal_strlit("Pylon::TimeoutException: "),
        ErrorKind::RuntimeException => reveal_strlit("Pylon::RuntimeException: "),
        ErrorKind::GenericException => reveal_strlit("Pylon::GenericException: "),
        ErrorKind::StdCppException => reveal_strlit("std::exception: "),
        ErrorKind::AviWriterFatalException => reveal_strlit("Pylon::AviWriterFatalException: "),
    }
    let front = what.subrange(0, prefix.len() as int);
    assert(front[0] == what[0] && front[7] == what[7] && front[8] == what[8]);
}

/// No message announces two kinds: the prefixes of the taxonomy exclude one
/// another, so the kind of a message is the one kind that it announces, in
/// whatever order the prefixes are tried.
pub proof fn lemma_kind_is_unique(what: Seq<char>, kind: ErrorKind, platform: Platform)
    ensures
        kind_of(what, platform) == Some(kind) <==> announces(what, kind, platform),
        kind_of(what, platform) is None <==> forall|other: ErrorKind|
            !announces(what, other, platform),
{
    assert forall|a: ErrorKind, b: ErrorKind|
        prefix_of(a).is_prefix_of(what) && prefix_of(b).is_prefix_of(what) implies a == b by {
        lemma_marks(what, a);
        lemma_marks(what, b);
    }
    if kind_of(what, platform) is Some {
        assert(announces(what, kind_of(what, platform)->0, platform));
    }
}

/// Removes `pattern` from the front of `msg` if `msg` starts with it, and
/// tells whether it did.
pub fn parse_err_msg(msg: &mut String, pattern: &str) -> (found: bool)
    ensures
        found == pattern@.is_prefix_of(old(msg)@),
        found ==> final(msg)@ == old(msg)@.skip(pattern@.len() as int),
        !found ==> final(msg)@ == old(msg)@,
{
    let plen: usize = pattern.unicode_len();
    let mlen: usize = msg.as_str().unicode_len();
    if plen > mlen {
        return false;
    }
    let mut i: usize = 0;
    while i < plen
        invariant
            i <= plen <= mlen,
            plen == pattern@.len(),
            mlen == msg@.len(),
            msg@ == old(msg)@,
            forall|j: int| 0 <= j < i ==> msg@[j] == pattern@[j],
        decreases plen - i,
    {
        if msg.as_str().get_char(i) != pattern.get_char(i) {
            return false;
        }
        i += 1;
    }
    assert(pattern@ =~= msg@.subrange(0, plen as int));
    let rest = String::from_str(msg.as_str().substring_char(plen, mlen));
    *msg = rest;
    true
}

/// The kind that `what` announces on `platform`, with the message that
/// follows the announcing prefix; `None` where the message announces no kind
/// of the taxonomy.
pub fn classify(what: &str, platform: Platform) -> (found: Option<(String, ErrorKind)>)
    ensures
        found is Some == kind_of(what@, platform) is Some,
        found matches Some(pair) ==> {
            &&& Some(pair.1) == kind_of(what@, platform)
            &&& pair.0@ == body_of(what@, pair.1)
        },
{
    let mut msg: String = String::from_str(what);
    if parse_err_msg(&mut msg, "Pylon::AccessException: ") {
        Some((msg, ErrorKind::AccessException))
    } else if parse_err_msg(&mut msg, "Pylon::BadAllocException: ") {
        Some((msg, ErrorKind::BadAllocException))
    } else if parse_err_msg(&mut msg, "Pylon::DynamicCastException: ") {
        Some((msg, ErrorKind::DynamicCastException))
    } else if parse_err_msg(&mut msg, "Pylon::LogicalErrorException: ") {
        Some((msg, ErrorKind::LogicalErrorException))
    } else if parse_err_msg(&mut msg, "Pylon::OutOfRangeException: ") {
        Some((msg, ErrorKind::OutOfRangeException))
    } else if parse_err_msg(&mut msg, "Pylon::PropertyException: ") {
        Some((msg, ErrorKind::PropertyException))
    } else if parse_err_msg(&mut msg, "Pylon::TimeoutException: ") {
        Some((msg, ErrorKind::TimeoutException))
    } else if parse_err_msg(&mut msg, "Pylon::RuntimeException: ") {
        Some((msg, ErrorKind::RuntimeException))
    } else if parse_err_msg(&mut msg, "Pylon::GenericException: ") {
        Some((msg, ErrorKind::GenericException))
    } else if parse_err_msg(&mut msg, "std::exception: ") {
        Some((msg, ErrorKind::StdCppException))
    } else {
        match platform {
            Platform::Windows => {
                if parse_err_msg(&mut msg, "Pylon::AviWriterFatalException: ") {
                    Some((msg, ErrorKind::AviWriterFatalException))
                } else {
                    None
                }
            },
            Platform::Posix => None,
        }
    }
}

/// Splits the message of an SDK failure into its kind and the text that
/// follows the announcing prefix. A message that announces no kind of the
/// taxonomy is not accepted: `classify` tells such a message apart.
pub fn to_msg_and_kind(orig_what: &str, platform: Platform) -> (pair: (String, ErrorKind))
    requires
        kind_of(orig_what@, platform) is Some,
    ensures
        Some(pair.1) == kind_of(orig_what@, platform),
        pair.0@ == body_of(orig_what@, pair.1),
{
    match classify(orig_what, platform) {
        Some(pair) => pair,
        None => (String::from_str(orig_what), ErrorKind::GenericException),
    }
}

/// A failure: its message, and the kind of the taxonomy where the device SDK
/// raised it. A failure raised on this side of the SDK boundary has no kind.
#[derive(Debug)]
pub struct PylonError {
    msg: String,
    kind: Option<ErrorKind>,
}

pub type PylonResult<T> = Result<T, PylonError>;

/// What a `PylonError` holds.
pub ghost struct PylonErrorView {
    pub msg: Seq<char>,
    pub kind: Option<ErrorKind>,
}

impl View for PylonError {
    type V = PylonErrorView;

    closed spec fn view(&self) -> PylonErrorView {
        PylonErrorView { msg: self.msg@, kind: self.kind }
    }
}

/// The message of the failure to read a path as UTF-8.
pub open spec fn path_failure() -> Seq<char> {
    "Cannot convert path to UTF-8"@
}

/// The message of the failure to read a string of the SDK as UTF-8.
pub open spec fn utf8_failure() -> Seq<char> {
    "Cannot convert C++ string to UTF-8"@
}

/// The text that `display` gives for a failure with message `msg`.
pub open spec fn display_of(msg: Seq<char>) -> Seq<char> {
    "PylonError("@ + msg + ")"@
}

impl PylonError {
    /// The failure that the SDK announced by the message `what`. A message
    /// that announces no kind of the taxonomy is not accepted.
    pub fn from_native(what: &str, platform: Platform) -> (e: PylonError)
        requires
            kind_of(what@, platform) is Some,
        ensures
            e@.kind == kind_of(what@, platform),
            e@.msg == body_of(what@, e@.kind->0),
    {
        let (msg, kind) = to_msg_and_kind(what, platform);
        PylonError { msg, kind: Some(kind) }
    }

    /// A failure of `kind` with the message `msg`.
    pub fn new(msg: &str, kind: ErrorKind) -> (e: PylonError)
        ensures
            e@ == (PylonErrorView { msg: msg@, kind: Some(kind) }),
    {
        PylonError { msg: String::from_str(msg), kind: Some(kind) }
    }

    /// A failure raised on this side of the SDK boundary.
    pub fn local(msg: &str) -> (e: PylonError)
        ensures
            e@ == (PylonErrorView { msg: msg@, kind: None }),
    {
        PylonError { msg: String::from_str(msg), kind: None }
    }

    /// The message, without the prefix that announced the kind.
    pub fn msg(&self) -> (m: &str)
        ensures
            m@ == self@.msg,
    {
        self.msg.as_str()
    }

    /// The kind, where the SDK raised the failure.
    pub fn kind(&self) -> (k: Option<ErrorKind>)
        ensures
            k == self@.kind,
    {
        self.kind
    }

    /// The failure as a line of text.
    pub fn display(&self) -> (text: String)
        ensures
            text@ == display_of(self@.msg),
    {
        let mut text = String::from_str("PylonError(");
        text.append(self.msg.as_str());
        text.append(")");
        text
    }
}

/// The file name that a path stands for, where the path could be read as
/// UTF-8 (`None` where it could not).
pub fn path_to_string(path: Option<&str>) -> (name: PylonResult<String>)
    ensures
        name is Ok == path is Some,
        name matches Ok(s) ==> s@ == path->0@,
        name matches Err(e) ==> e@ == (PylonErrorView { msg: path_failure(), kind: None }),
{
    match path {
        Some(filename) => Ok(String::from_str(filename)),
        None => Err(PylonError::local("Cannot convert path to UTF-8")),
    }
}

/// `str::from_utf8` of std: `bytes` seen as text, where they are
/// well-formed UTF-8, and nothing where they are not. The text is made of
/// the very bytes it was given.
#[verifier::external_body]
fn str_from_utf8(bytes: &[u8]) -> (text: Option<&str>)
    ensures
        text is Some == valid_utf8(bytes@),
        text matches Some(s) ==> s.spec_bytes() == bytes@,
{
    std::str::from_utf8(bytes).ok()
}

/// The strings of the SDK as text: each of `raw` decoded, in order, where
/// every one of them is well-formed UTF-8, and a failure where one is not.
pub fn into_rust(raw: &Vec<Vec<u8>>) -> (texts: PylonResult<Vec<String>>)
    ensures
        texts is Ok == (forall|i: int| 0 <= i < raw@.len() ==> valid_utf8(#[trigger] raw@[i]@)),
        texts matches Ok(v) ==> {
            &&& v@.len() == raw@.len()
            &&& forall|i: int| 0 <= i < raw@.len() ==> (#[trigger] v@[i])@ == decode_utf8(raw@[i]@)
        },
        texts matches Err(e) ==> e@ == (PylonErrorView { msg: utf8_failure(), kind: None }),
{
    let mut texts: Vec<String> = Vec::new();
    let mut done: usize = 0;
    while done < raw.len()
        invariant
            done <= raw@.len(),
            texts@.len() == done,
            forall|i: int| 0 <= i < done ==> valid_utf8(#[trigger] raw@[i]@),
            forall|i: int| 0 <= i < done ==> (#[trigger] texts@[i])@ == decode_utf8(raw@[i]@),
        decreases raw@.len() - done,
    {
        match str_from_utf8(raw[done].as_slice()) {
            Some(text) => {
                proof {
                    encode_utf8_decode_utf8(text@);
                }
                texts.push(String::from_str(text));
            },
            None => {
                return Err(PylonError::local("Cannot convert C++ string to UTF-8"));
            },
        }
        done += 1;
    }
    Ok(texts)
}

} // verus!
