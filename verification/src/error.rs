//! A chained error taxonomy.
//!
//! An [`Error`] classifies one failure by an [`ErrorKind`], may keep the text
//! of what triggered it, and may own the error that it wraps. The chain of
//! wrapped errors is modelled as a sequence of links, the most recent first;
//! every contract below is stated over that sequence.

use vstd::prelude::*;

verus! {

/// The categories of failure.
///
/// The list is open ended: more kinds may be added, and callers that match on
/// a kind keep a catch-all arm.
#[derive(Clone, Copy, Debug, Eq, Hash, Ord, PartialEq, PartialOrd, Structural)]
#[non_exhaustive]
pub enum ErrorKind {
    JsonDecode,
    JsonEncode,
    OpenFile,
    ParseError,
    InvalidVersion,
    Unknown,
    Network,
    _NonExhaustive,
}

impl ErrorKind {
    /// The fixed description of a kind.
    pub open spec fn description(self) -> Seq<char> {
        match self {
            ErrorKind::_NonExhaustive => "_NonExhaustive."@,
            ErrorKind::JsonDecode => "json decode error."@,
            ErrorKind::JsonEncode => "json encode error."@,
            ErrorKind::OpenFile => "open file error."@,
            ErrorKind::ParseError => "parse error."@,
            ErrorKind::InvalidVersion => "invalid version error."@,
            ErrorKind::Unknown => "unknown error."@,
            ErrorKind::Network => "network error."@,
        }
    }

    /// Returns the fixed description of this kind.
    pub fn as_str(&self) -> (text: &'static str)
        ensures
            text@ == self.description(),
    {
        match *self {
            ErrorKind::_NonExhaustive => "_NonExhaustive.",
            ErrorKind::JsonDecode => "json decode error.",
            ErrorKind::JsonEncode => "json encode error.",
            ErrorKind::OpenFile => "open file error.",
            ErrorKind::ParseError => "parse error.",
            ErrorKind::InvalidVersion => "invalid version error.",
            ErrorKind::Unknown => "unknown error.",
            ErrorKind::Network => "network error.",
        }
    }
}

/// One link of a chain: a kind and the text of its cause, if it has one.
pub type Link = (ErrorKind, Option<Seq<char>>);

/// The chain of a fresh error: one link.
pub open spec fn fresh(kind: ErrorKind, cause: Option<Seq<char>>) -> Seq<Link> {
    seq![(kind, cause)]
}

/// The chain that wrapping `chain` gives: the new link, then `chain`.
pub open spec fn wrapped(chain: Seq<Link>, kind: ErrorKind, cause: Option<Seq<char>>) -> Seq<
    Link,
> {
    seq![(kind, cause)] + chain
}

/// Whether some link of `chain` is of the given kind.
pub open spec fn has_kind(chain: Seq<Link>, kind: ErrorKind) -> bool {
    exists|i: int| 0 <= i < chain.len() && (#[trigger] chain[i]).0 == kind
}

/// The text of a chain: the description of each link, first to last, each
/// followed by a semicolon.
pub open spec fn rendering(chain: Seq<Link>) -> Seq<char>
    decreases chain.len(),
{
    if chain.len() == 0 {
        Seq::empty()
    } else {
        chain[0].0.description() + seq![';'] + rendering(chain.skip(1))
    }
}

/// The view of an optional text.
pub open spec fn text_of(cause: Option<String>) -> Option<Seq<char>> {
    match cause {
        Some(s) => Some(s@),
        None => None,
    }
}

/// One failure, with the failure that it wraps, if any.
#[derive(Debug)]
pub struct Error {
    kind: ErrorKind,
    father: Option<Box<Error>>,
    cause: Option<String>,
}

impl View for Error {
    type V = Seq<Link>;

    /// The chain of links, this error first, the oldest last.
    closed spec fn view(&self) -> Seq<Link> {
        self.links()
    }
}

impl Clone for Error {
    /// A copy of the whole chain.
    fn clone(&self) -> (copy: Self)
        ensures
            copy == *self,
        decreases self,
    {
        let father = match &self.father {
            Some(parent) => Some(Box::new((&**parent).clone())),
            None => None,
        };
        let cause = match &self.cause {
            Some(text) => Some(text.clone()),
            None => None,
        };
        Error { kind: self.kind, father, cause }
    }
}

impl Error {
    /// The links of this error and of those that it wraps, in that order.
    spec fn links(&self) -> Seq<Link>
        decreases self,
    {
        match self.father {
            Some(parent) => seq![(self.kind, text_of(self.cause))] + parent.links(),
            None => seq![(self.kind, text_of(self.cause))],
        }
    }

    /// A fresh error of the given kind. `cause` is the text of what
    /// triggered the failure, where the caller has one.
    pub fn new(kind: ErrorKind, cause: Option<String>) -> (error: Self)
        ensures
            error@ == fresh(kind, text_of(cause)),
    {
        Error { kind, father: None, cause }
    }

    /// A fresh error of the given kind, whose cause is the given text.
    pub fn new_with_str(kind: ErrorKind, cause: String) -> (error: Self)
        ensures
            error@ == fresh(kind, Some(cause@)),
    {
        Error { kind, father: None, cause: Some(cause) }
    }

    /// An error of the given kind that wraps a copy of this one.
    pub fn wrap(&self, kind: ErrorKind, cause: Option<String>) -> (error: Self)
        ensures
            error@ == wrapped(self@, kind, text_of(cause)),
    {
        Error { kind, father: Some(Box::new(self.clone())), cause }
    }

    /// Whether this error, or one that it wraps, is of the given kind.
    pub fn is(&self, kind: ErrorKind) -> (found: bool)
        ensures
            found == has_kind(self@, kind),
    {
        let mut cur = self;
        let ghost mut at: int = 0;
        loop
            invariant
                0 <= at < self@.len(),
                cur@ == self@.skip(at),
                forall|i: int| 0 <= i < at ==> (#[trigger] self@[i]).0 != kind,
            decreases self@.len() - at,
        {
            proof {
                cur.chain_unfolds();
            }
            if cur.kind == kind {
                assert(self@[at] == cur@[0]);
                return true;
            }
            match &cur.father {
                Some(parent) => {
                    proof {
                        assert(self@.skip(at).skip(1) == self@.skip(at + 1));
                        at = at + 1;
                    }
                    cur = &**parent;
                },
                None => {
                    assert forall|i: int| 0 <= i < self@.len() implies (#[trigger] self@[i]).0
                        != kind by {
                        if i == at {
                            assert(self@[at] == cur@[0]);
                        }
                    }
                    return false;
                },
            }
        }
    }

    /// The text of this error's own cause, if it has one. The errors that
    /// it wraps are not searched.
    pub fn cause_string(&self) -> (cause: Option<&String>)
        ensures
            self@.len() >= 1,
            match cause {
                Some(text) => self@[0].1 == Some(text@),
                None => self@[0].1 is None,
            },
    {
        proof {
            self.chain_unfolds();
        }
        self.cause.as_ref()
    }

    /// The description of this error's own kind.
    pub fn description(&self) -> (text: &'static str)
        ensures
            self@.len() >= 1,
            text@ == self@[0].0.description(),
    {
        proof {
            self.chain_unfolds();
        }
        self.kind.as_str()
    }

    /// The error that this one wraps, if it wraps one.
    pub fn source(&self) -> (parent: Option<&Error>)
        ensures
            match parent {
                Some(inner) => self@.len() >= 2 && inner@ == self@.skip(1),
                None => self@.len() == 1,
            },
    {
        proof {
            self.chain_unfolds();
        }
        match &self.father {
            Some(parent) => {
                proof {
                    parent.chain_unfolds();
                }
                Some(&**parent)
            },
            None => None,
        }
    }

    /// The description of each link, this error's first, each followed by a
    /// semicolon. The text is for people to read.
    pub fn to_string(&self) -> (text: String)
        ensures
            text@ == rendering(self@),
    {
        let mut text = String::new();
        let mut cur = self;
        let ghost mut at: int = 0;
        proof {
            self.chain_unfolds();
            reveal_strlit(";");
            assert(";"@ == seq![';']);
            assert(self@.skip(0) == self@);
        }
        loop
            invariant
                0 <= at < self@.len(),
                cur@ == self@.skip(at),
                text@ + rendering(self@.skip(at)) == rendering(self@),
                ";"@ == seq![';'],
            decreases self@.len() - at,
        {
            proof {
                cur.chain_unfolds();
                assert(self@.skip(at).skip(1) == self@.skip(at + 1));
                assert(self@.skip(at)[0] == self@[at]);
            }
            let ghost before = text@;
            text.append(cur.kind.as_str());
            text.append(";");
            assert(text@ + rendering(self@.skip(at + 1)) == before + rendering(self@.skip(at)));
            match &cur.father {
                Some(parent) => {
                    proof {
                        at = at + 1;
                    }
                    cur = &**parent;
                },
                None => {
                    assert(rendering(self@.skip(at + 1)) == Seq::<char>::empty());
                    assert(text@ + Seq::<char>::empty() == text@);
                    return text;
                },
            }
        }
    }

    /// Every chain holds at least the link of the error itself.
    pub proof fn chain_is_nonempty(&self)
        ensures
            self@.len() >= 1,
    {
        self.chain_unfolds();
    }

    /// How the chain of an error is made of its own link and its parent's chain.
    proof fn chain_unfolds(&self)
        ensures
            self@.len() >= 1,
            self@[0] == (self.kind, text_of(self.cause)),
            match self.father {
                Some(parent) => self@.skip(1) == parent@,
                None => self@.len() == 1,
            },
    {
        match self.father {
            Some(parent) => {
                assert(self@.skip(1) =~= parent@);
            },
            None => {},
        }
    }
}

impl Default for Error {
    /// A filler for where no specific error is at hand: kind unknown, no
    /// cause, nothing wrapped.
    fn default() -> (error: Self)
        ensures
            error@ == fresh(ErrorKind::Unknown, None),
    {
        Error { kind: ErrorKind::Unknown, father: None, cause: None }
    }
}

impl From<ErrorKind> for Error {
    /// A fresh error of the given kind, without a cause.
    fn from(kid: ErrorKind) -> (error: Self)
        ensures
            error@ == fresh(kid, None),
    {
        Error { kind: kid, father: None, cause: None }
    }
}

impl vstd::std_specs::convert::FromSpecImpl<ErrorKind> for Error {
    open spec fn obeys_from_spec() -> bool {
        true
    }

    closed spec fn from_spec(kid: ErrorKind) -> Self {
        Error { kind: kid, father: None, cause: None }
    }
}

/// A fresh error is of its own kind and of no other.
pub proof fn fresh_is_of_its_kind_alone(kind: ErrorKind, other: ErrorKind, cause: Option<Seq<char>>)
    requires
        kind != other,
    ensures
        has_kind(fresh(kind, cause), kind),
        !has_kind(fresh(kind, cause), other),
{
    assert(fresh(kind, cause)[0].0 == kind);
}

/// Wrapping adds the new kind and loses none: the wrapping error is of the
/// kind it was given, and of every kind that the wrapped one was of, and of
/// no further kind.
pub proof fn wrapping_keeps_kinds(
    chain: Seq<Link>,
    kind: ErrorKind,
    cause: Option<Seq<char>>,
    asked: ErrorKind,
)
    ensures
        has_kind(wrapped(chain, kind, cause), kind),
        has_kind(chain, asked) ==> has_kind(wrapped(chain, kind, cause), asked),
        has_kind(wrapped(chain, kind, cause), asked) <==> asked == kind || has_kind(chain, asked),
{
    let outer = wrapped(chain, kind, cause);
    assert(outer[0].0 == kind);
    if has_kind(chain, asked) {
        let i = choose|i: int| 0 <= i < chain.len() && (#[trigger] chain[i]).0 == asked;
        assert(outer[i + 1] == chain[i]);
    }
    if has_kind(outer, asked) && asked != kind {
        let i = choose|i: int| 0 <= i < outer.len() && (#[trigger] outer[i]).0 == asked;
        assert(chain[i - 1] == outer[i]);
    }
}

/// Wrapping leaves the wrapped error as it was: behind the new link stands
/// its whole chain, each kind and each cause in its place.
pub proof fn wrapping_keeps_the_wrapped(chain: Seq<Link>, kind: ErrorKind, cause: Option<Seq<char>>)
    ensures
        wrapped(chain, kind, cause).len() == chain.len() + 1,
        wrapped(chain, kind, cause)[0] == (kind, cause),
        wrapped(chain, kind, cause).skip(1) == chain,
{
    assert(wrapped(chain, kind, cause).skip(1) =~= chain);
}

/// The text of a wrapping error is the description of its kind, a semicolon,
/// and the text of the error that it wraps.
pub proof fn rendering_of_wrapped(chain: Seq<Link>, kind: ErrorKind, cause: Option<Seq<char>>)
    ensures
        rendering(wrapped(chain, kind, cause)) == kind.description() + seq![';'] + rendering(chain),
        rendering(fresh(kind, cause)) == kind.description() + seq![';'],
{
    assert(wrapped(chain, kind, cause).skip(1) =~= chain);
    assert(fresh(kind, cause).skip(1) =~= Seq::<Link>::empty());
    assert(rendering(Seq::<Link>::empty()) == Seq::<char>::empty());
    assert(kind.description() + seq![';'] + Seq::<char>::empty() == kind.description() + seq![';']);
}

/// Rendering keeps the order of wrapping: an error wrapped as `first` and
/// then as `second` reads as the description of `second`, that of `first`,
/// and then the text of the error itself, each description followed by a
/// semicolon.
pub proof fn rendering_follows_wrapping(chain: Seq<Link>, first: ErrorKind, second: ErrorKind)
    ensures
        rendering(wrapped(wrapped(chain, first, None), second, None)) == second.description()
            + seq![';'] + first.description() + seq![';'] + rendering(chain),
        chain.len() == 1 ==> rendering(wrapped(wrapped(chain, first, None), second, None))
            == second.description() + seq![';'] + first.description() + seq![';']
            + chain[0].0.description() + seq![';'],
{
    let inner = wrapped(chain, first, None);
    rendering_of_wrapped(chain, first, None);
    rendering_of_wrapped(inner, second, None);
    assert(second.description() + seq![';'] + (first.description() + seq![';'] + rendering(chain))
        == second.description() + seq![';'] + first.description() + seq![';'] + rendering(chain));
    if chain.len() == 1 {
        assert(chain == fresh(chain[0].0, chain[0].1));
        rendering_of_wrapped(chain, chain[0].0, chain[0].1);
        assert(second.description() + seq![';'] + first.description() + seq![';'] + (
        chain[0].0.description() + seq![';']) == second.description() + seq![';']
            + first.description() + seq![';'] + chain[0].0.description() + seq![';']);
    }
}

/// The default error reads as the description of the unknown kind and a
/// semicolon.
pub proof fn rendering_of_default()
    ensures
        rendering(fresh(ErrorKind::Unknown, None)) == "unknown error.;"@,
{
    rendering_of_wrapped(Seq::empty(), ErrorKind::Unknown, None);
    reveal_strlit("unknown error.;");
    reveal_strlit("unknown error.");
    assert("unknown error."@ + seq![';'] == "unknown error.;"@);
}

} // verus!
