use vstd::prelude::*;

verus! {

/// What one link of a cause chain exposes: the identity token of its concrete
/// type and its display and debug renderings.
pub ghost struct Link {
    pub token: u64,
    pub display: Seq<char>,
    pub debug: Seq<char>,
}

/// A concrete failure value that can be wrapped by [`crate::error::Error`].
///
/// It carries exactly the capability set the container relies on: a display
/// rendering, a debug rendering, an optional nested cause, and a token that
/// identifies the concrete type of failure it stands for. The token plays the
/// role of runtime type identity: two failures are of the same concrete type
/// exactly when their tokens are equal, and a checked downcast compares
/// tokens before handing the stored value back.
#[derive(Debug, PartialEq, Eq)]
pub struct Failure {
    /// Identity token of the concrete failure type.
    pub token: u64,
    /// The failure's display rendering.
    pub display: String,
    /// The failure's debug rendering.
    pub debug: String,
    /// The failure's own declared cause, if it has one.
    pub source: Option<Box<Failure>>,
}

impl Failure {
    /// The chain link this failure itself contributes.
    pub open spec fn link(&self) -> Link {
        Link { token: self.token, display: self.display@, debug: self.debug@ }
    }
}

impl View for Failure {
    type V = Seq<Link>;

    /// A failure is abstracted as its cause chain: its own link first, then
    /// the links of its source, recursively. The chain is never empty.
    open spec fn view(&self) -> Seq<Link>
        decreases self,
    {
        match self.source {
            Some(b) => seq![self.link()] + (*b)@,
            None => seq![self.link()],
        }
    }
}

/// Shape facts about a failure's chain view: it starts with the failure's own
/// link, and the rest of it is exactly the source's chain.
pub proof fn lemma_view_shape(f: &Failure)
    ensures
        f@.len() >= 1,
        f@[0] == f.link(),
        f.source matches Some(b) ==> f@.skip(1) == (*b)@,
        f.source is None ==> f@.len() == 1,
{
    match f.source {
        Some(b) => {
            assert(f@ == seq![f.link()] + (*b)@);
            assert(f@.skip(1) =~= (*b)@);
        },
        None => {
            assert(f@ == seq![f.link()]);
        },
    }
}

/// Law: a failure whose own source declares no further source has a chain of
/// exactly two links, the failure's own first, then its cause's.
pub proof fn lemma_chain_of_two(f: &Failure, cause: &Failure)
    requires
        f.source matches Some(b) && *b == *cause && cause.source is None,
    ensures
        f@.len() == 2,
        f@ == seq![f.link(), cause.link()],
{
    lemma_view_shape(f);
    lemma_view_shape(cause);
    assert(f@ =~= seq![f.link(), cause.link()]);
}

} // verus!
