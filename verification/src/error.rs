//! Errors reported by the metadata getters.
use vstd::prelude::*;
use crate::text::texts;

verus! {

/// What an [`ErrorKind`] says, with its text as a sequence of characters.
pub enum Failure {
    Uninitialized,
    HttpRequest(Seq<char>),
    HttpResponse(u16),
    MetadataParse(Seq<char>),
}

/// Represents the details of an [`Error`].
#[derive(Debug)]
pub enum ErrorKind {
    /// The initialization that another caller had in flight did not produce a value.
    Uninitialized,
    /// The request never produced a usable response; the text says why.
    HttpRequest(String),
    /// The metadata service answered with a status code other than 200.
    HttpResponse(u16),
    /// A response body could not be parsed; the tag names the field.
    MetadataParse(&'static str),
}

impl View for ErrorKind {
    type V = Failure;

    open spec fn view(&self) -> Failure {
        match *self {
            ErrorKind::Uninitialized => Failure::Uninitialized,
            ErrorKind::HttpRequest(detail) => Failure::HttpRequest(detail@),
            ErrorKind::HttpResponse(code) => Failure::HttpResponse(code),
            ErrorKind::MetadataParse(tag) => Failure::MetadataParse(tag@),
        }
    }
}

/// Represents errors that can occur while talking to the metadata service.
#[derive(Debug)]
pub struct Error {
    kind: ErrorKind,
}

impl View for Error {
    type V = Failure;

    closed spec fn view(&self) -> Failure {
        self.kind@
    }
}

/// A result that carries text, by the text and by what the error says.
pub open spec fn text_result(r: Result<String, Error>) -> Result<Seq<char>, Failure> {
    match r {
        Ok(text) => Ok(text@),
        Err(e) => Err(e@),
    }
}

/// A result that carries a list of texts, by the texts and by what the error says.
pub open spec fn list_result(r: Result<Vec<String>, Error>) -> Result<Seq<Seq<char>>, Failure> {
    match r {
        Ok(list) => Ok(texts(list@)),
        Err(e) => Err(e@),
    }
}

/// A result that may carry text, by the text and by what the error says.
pub open spec fn optional_result(r: Result<Option<String>, Error>) -> Result<
    Option<Seq<char>>,
    Failure,
> {
    match r {
        Ok(Some(text)) => Ok(Some(text@)),
        Ok(None) => Ok(None),
        Err(e) => Err(e@),
    }
}

/// The decimal digit `d` as a character.
pub open spec fn digit(d: int) -> char {
    (48 + d) as char
}

/// The decimal notation of `n`, without leading zeros.
pub open spec fn decimal(n: nat) -> Seq<char>
    decreases n,
{
    if n < 10 {
        seq![digit(n as int)]
    } else {
        decimal(n / 10).push(digit((n % 10) as int))
    }
}

/// The sentence that describes a failure to a reader.
pub open spec fn describe(f: Failure) -> Seq<char> {
    match f {
        Failure::Uninitialized => "error occurred in a initialization call from the other thread"@,
        Failure::HttpRequest(detail) => "http request error: "@ + detail,
        Failure::HttpResponse(code) => "http response status code error: "@ + decimal(code as nat),
        Failure::MetadataParse(tag) => "metadata parse error: "@ + tag,
    }
}

/// Writes `n` in decimal.
pub fn decimal_string(n: u16) -> (s: String)
    ensures
        s@ == decimal(n as nat),
{
    let digits = "0123456789";
    proof {
        reveal_strlit("0123456789");
    }
    let mut rest: u16 = n;
    let mut tail: String = String::new();
    // The digits come out lowest first, so each one goes in front of the others.
    loop
        invariant
            digits@.len() == 10,
            forall|d: int| 0 <= d < 10 ==> digits@[d] == digit(d),
            decimal(n as nat) == decimal(rest as nat) + tail@,
        decreases rest,
    {
        let d: usize = (rest % 10) as usize;
        let mut next: String = digits.substring_char(d, d + 1).to_owned();
        assert(next@ == seq![digit(d as int)]);
        next.append(tail.as_str());
        if rest < 10 {
            return next;
        }
        proof {
            let lower = decimal((rest / 10) as nat);
            assert(decimal(rest as nat) == lower.push(digit(d as int)));
            assert(lower.push(digit(d as int)) + tail@ == lower + (seq![digit(d as int)] + tail@));
        }
        tail = next;
        rest = rest / 10;
    }
}

impl Error {
    /// An error of the given kind.
    pub fn new(kind: ErrorKind) -> (e: Error)
        ensures
            e@ == kind@,
    {
        Error { kind }
    }

    /// Borrows the [`ErrorKind`].
    pub fn kind(&self) -> (k: &ErrorKind)
        ensures
            k@ == self@,
    {
        &self.kind
    }

    /// Takes the [`ErrorKind`] out.
    pub fn into_kind(self) -> (k: ErrorKind)
        ensures
            k@ == self@,
    {
        self.kind
    }

    /// The sentence that describes this error.
    pub fn message(&self) -> (m: String)
        ensures
            m@ == describe(self@),
    {
        match &self.kind {
            ErrorKind::Uninitialized => {
                "error occurred in a initialization call from the other thread".to_owned()
            },
            ErrorKind::HttpRequest(detail) => {
                let mut m = "http request error: ".to_owned();
                m.append(detail.as_str());
                m
            },
            ErrorKind::HttpResponse(code) => {
                let mut m = "http response status code error: ".to_owned();
                let number = decimal_string(*code);
                m.append(number.as_str());
                m
            },
            ErrorKind::MetadataParse(tag) => {
                let mut m = "metadata parse error: ".to_owned();
                m.append(tag);
                m
            },
        }
    }
}

impl From<ErrorKind> for Error {
    fn from(kind: ErrorKind) -> (e: Error) {
        Error { kind }
    }
}

impl vstd::std_specs::convert::FromSpecImpl<ErrorKind> for Error {
    open spec fn obeys_from_spec() -> bool {
        true
    }

    closed spec fn from_spec(kind: ErrorKind) -> Error {
        Error { kind }
    }
}

/// An error made from a kind says what the kind says.
pub proof fn lemma_from_kind(kind: ErrorKind)
    ensures
        <Error as vstd::std_specs::convert::FromSpec<ErrorKind>>::from_spec(kind)@ == kind@,
{
}

} // verus!
