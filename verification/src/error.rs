use vstd::prelude::*;
use vstd::string::*;

use crate::context::Context;
use crate::failure::Failure;
use crate::failure::Link;
use crate::failure::lemma_view_shape;

verus! {

/// The identity token recorded for the internal message-wrapper failure that
/// [`Error::msg`] stores. A message-only error therefore downcasts only under
/// this reserved token, never under a token recorded for a concrete failure
/// type of a caller's own. A token is a plain number, though: a caller who
/// passes this very token does recover the message wrapper, so the
/// reservation is a convention of the token model, not an unnameable private
/// type.
pub const MESSAGE_TOKEN: u64 = 0;

/// The renderings of an attached context annotation.
pub ghost struct CtxView {
    pub display: Seq<char>,
    pub debug: Seq<char>,
}

/// The abstract state of an [`Error`].
pub ghost struct ErrorModel {
    /// The cause chain of the wrapped failure: the failure's own link first,
    /// then the links of its nested sources. Empty only for the degenerate
    /// sourceless error, which no public operation constructs.
    pub chain: Seq<Link>,
    /// The attached context annotation, if any.
    pub context: Option<CtxView>,
    /// The backtrace snapshot, if one was captured at construction.
    pub backtrace: Option<Seq<char>>,
    /// The identity token, recorded at construction, of the concrete type of
    /// the wrapped failure.
    pub token: u64,
}

/// The model of a freshly constructed error wrapping the given chain.
pub open spec fn new_model(chain: Seq<Link>, backtrace: Option<Seq<char>>) -> ErrorModel
    recommends
        chain.len() > 0,
{
    ErrorModel { chain, context: None, backtrace, token: chain[0].token }
}

/// The model of attaching a context annotation: the previous annotation, if
/// any, is replaced; nothing else changes.
pub open spec fn with_context_model(m: ErrorModel, c: CtxView) -> ErrorModel {
    ErrorModel { context: Some(c), ..m }
}

/// A downcast to `token` succeeds exactly when the recorded identity token
/// matches and a source is stored.
pub open spec fn downcast_ok(m: ErrorModel, token: u64) -> bool {
    token == m.token && m.chain.len() > 0
}

/// The model of a consuming downcast: the stored chain on a token match, the
/// unchanged error otherwise.
pub open spec fn downcast_model(m: ErrorModel, token: u64) -> Result<Seq<Link>, ErrorModel> {
    if downcast_ok(m, token) {
        Ok(m.chain)
    } else {
        Err(m)
    }
}

/// The display rendering: the wrapped source's own display text, or a fixed
/// fallback for the degenerate sourceless error.
pub open spec fn display_model(m: ErrorModel) -> Seq<char> {
    if m.chain.len() > 0 {
        m.chain[0].display
    } else {
        "Unknown error"@
    }
}

/// The narrative debug rendering: the display text, then one line for the
/// context, one for the second chain element, and one for the backtrace, each
/// only where present.
pub open spec fn narrative_model(m: ErrorModel) -> Seq<char> {
    display_model(m) + (match m.context {
        Some(c) => "\nContext: "@ + c.display,
        None => Seq::<char>::empty(),
    }) + (if m.chain.len() > 1 {
        "\nCaused by: "@ + m.chain[1].display
    } else {
        Seq::<char>::empty()
    }) + (match m.backtrace {
        Some(b) => "\n"@ + b,
        None => Seq::<char>::empty(),
    })
}

/// How an optional field is rendered inside the structured debug form.
pub open spec fn labeled_option(o: Option<Seq<char>>) -> Seq<char> {
    match o {
        Some(s) => "Some("@ + s + ")"@,
        None => "None"@,
    }
}

/// The structured debug rendering: a labeled record of the source, context
/// and backtrace fields, each through its debug rendering.
pub open spec fn structured_model(m: ErrorModel) -> Seq<char> {
    "Error { source: "@ + labeled_option(
        if m.chain.len() > 0 {
            Some(m.chain[0].debug)
        } else {
            None
        },
    ) + ", context: "@ + labeled_option(
        match m.context {
            Some(c) => Some(c.debug),
            None => None,
        },
    ) + ", backtrace: "@ + labeled_option(m.backtrace) + " }"@
}

/// The view of an optional backtrace snapshot.
pub open spec fn opt_text_view(o: Option<String>) -> Option<Seq<char>> {
    match o {
        Some(s) => Some(s@),
        None => None,
    }
}

/// The stored renderings of an attached context annotation.
#[derive(Debug)]
struct StoredContext {
    display: String,
    debug: String,
}

/// The opaque error container: one uniform error value wrapping an arbitrary
/// concrete failure, an optional context annotation, and an optional
/// backtrace snapshot, together with the identity token of the wrapped
/// failure's concrete type.
#[derive(Debug)]
pub struct Error {
    source: Option<Failure>,
    context: Option<StoredContext>,
    backtrace: Option<String>,
    type_token: u64,
}

impl View for Error {
    type V = ErrorModel;

    closed spec fn view(&self) -> ErrorModel {
        ErrorModel {
            chain: match self.source {
                Some(f) => f@,
                None => Seq::empty(),
            },
            context: match self.context {
                Some(c) => Some(CtxView { display: c.display@, debug: c.debug@ }),
                None => None,
            },
            backtrace: opt_text_view(self.backtrace),
            token: self.type_token,
        }
    }
}

impl Error {
    /// The container's invariant: a source is stored and the recorded token
    /// is the identity token of that source. Every public construction
    /// establishes it and every transform preserves it; it is what makes the
    /// checked downcast hand back a value of the requested identity.
    pub open spec fn wf(&self) -> bool {
        self@.chain.len() > 0 && self@.token == self@.chain[0].token
    }

    /// Wrap a concrete failure value, capturing no backtrace snapshot.
    pub fn new(source: Failure) -> (r: Error)
        ensures
            r@ == new_model(source@, None),
            r.wf(),
    {
        Error::new_with_backtrace(source, None)
    }

    /// Wrap a concrete failure value together with a backtrace snapshot, if
    /// the caller captured one. Whether to capture is the caller's ambient
    /// configuration concern; taking the snapshot as a parameter keeps both
    /// the capture and no-capture paths exercisable deterministically.
    pub fn new_with_backtrace(source: Failure, backtrace: Option<String>) -> (r: Error)
        ensures
            r@ == new_model(source@, opt_text_view(backtrace)),
            r.wf(),
    {
        proof {
            lemma_view_shape(&source);
        }
        let token = source.token;
        Error { source: Some(source), context: None, backtrace, type_token: token }
    }

    /// Wrap a plain message: the message's display text is stored inside a
    /// minimal message-wrapper failure with no further source, whose debug
    /// rendering is the text itself, so the one source slot is reused. The
    /// recorded token is [`MESSAGE_TOKEN`], the wrapper's own identity, never
    /// a token recorded for a caller's concrete failure type; downcasting
    /// with any other token gives the error back unchanged.
    pub fn msg<M: Context>(message: M) -> (r: Error)
        ensures
            r@.chain.len() == 1,
            r@.chain[0].display == message.display_view(),
            r@.chain[0].debug == message.display_view(),
            r@.chain[0].token == MESSAGE_TOKEN,
            r@.token == MESSAGE_TOKEN,
            r@.context is None,
            r@.backtrace is None,
            r.wf(),
    {
        Error::msg_with_backtrace(message, None)
    }

    /// Wrap a plain message as [`Error::msg`] does, together with a backtrace
    /// snapshot, if the caller captured one.
    pub fn msg_with_backtrace<M: Context>(message: M, backtrace: Option<String>) -> (r: Error)
        ensures
            r@.chain.len() == 1,
            r@.chain[0].display == message.display_view(),
            r@.chain[0].debug == message.display_view(),
            r@.chain[0].token == MESSAGE_TOKEN,
            r@.token == MESSAGE_TOKEN,
            r@.context is None,
            r@.backtrace == opt_text_view(backtrace),
            r.wf(),
    {
        let text = message.display_text();
        let debug = text.clone();
        let failure = Failure { token: MESSAGE_TOKEN, display: text, debug, source: None };
        proof {
            lemma_view_shape(&failure);
        }
        Error::new_with_backtrace(failure, backtrace)
    }

    /// The backtrace snapshot, if one was captured at construction.
    pub fn backtrace(&self) -> (r: Option<&String>)
        ensures
            match r {
                Some(b) => self@.backtrace == Some(b@),
                None => self@.backtrace is None,
            },
    {
        self.backtrace.as_ref()
    }

    /// Attach a context annotation, replacing any previous one; the wrapped
    /// failure, the backtrace and the recorded token are untouched.
    pub fn context<C: Context>(self, context: C) -> (r: Error)
        ensures
            r@ == with_context_model(self@, CtxView {
                display: context.display_view(),
                debug: context.debug_view(),
            }),
            self.wf() ==> r.wf(),
    {
        let display = context.display_text();
        let debug = context.debug_text();
        let Error { source, context: _, backtrace, type_token } = self;
        Error { source, context: Some(StoredContext { display, debug }), backtrace, type_token }
    }

    /// Attempt to recover the wrapped failure by its identity token. On a
    /// token match the stored failure itself is handed back; otherwise the
    /// error comes back untouched, so nothing is lost and the caller may try
    /// another token or propagate it unchanged.
    pub fn downcast(self, token: u64) -> (r: Result<Failure, Error>)
        ensures
            downcast_ok(self@, token) ==> (r matches Ok(f) && f@ == self@.chain && f.token
                == self@.chain[0].token),
            !downcast_ok(self@, token) ==> r == Err::<Failure, Error>(self),
    {
        let Error { source, context, backtrace, type_token } = self;
        match source {
            Some(f) => {
                if token == type_token {
                    proof {
                        lemma_view_shape(&f);
                    }
                    Ok(f)
                } else {
                    Err(Error { source: Some(f), context, backtrace, type_token })
                }
            },
            None => Err(Error { source: None, context, backtrace, type_token }),
        }
    }

    /// Attempt to borrow the wrapped failure by its identity token, without
    /// consuming or changing the error.
    pub fn downcast_ref(&self, token: u64) -> (r: Option<&Failure>)
        ensures
            downcast_ok(self@, token) ==> (r matches Some(f) && f@ == self@.chain && f.token
                == self@.chain[0].token),
            !downcast_ok(self@, token) ==> r is None,
    {
        if token == self.type_token {
            match &self.source {
                Some(f) => {
                    proof {
                        lemma_view_shape(f);
                    }
                    Some(f)
                },
                None => None,
            }
        } else {
            None
        }
    }

    /// Borrow the wrapped failure, the head of the cause chain; the context
    /// annotation is not part of the chain and is not exposed here.
    pub fn chain_head(&self) -> (r: Option<&Failure>)
        ensures
            match r {
                Some(f) => f@ == self@.chain,
                None => self@.chain.len() == 0,
            },
    {
        self.source.as_ref()
    }

    /// The display rendering: the wrapped source's display text verbatim, or
    /// the fixed fallback where no source is stored.
    pub fn to_display_string(&self) -> (r: String)
        ensures
            r@ == display_model(self@),
    {
        match &self.source {
            Some(f) => {
                proof {
                    lemma_view_shape(f);
                }
                f.display.clone()
            },
            None => "Unknown error".to_owned(),
        }
    }

    /// The debug rendering, in the structured mode when asked for, in the
    /// narrative mode otherwise.
    pub fn to_debug_string(&self, structured: bool) -> (r: String)
        ensures
            r@ == if structured {
                structured_model(self@)
            } else {
                narrative_model(self@)
            },
    {
        if structured {
            self.render_structured()
        } else {
            self.render_narrative()
        }
    }

    /// The narrative debug mode: display text, then `Context:`, `Caused by:`
    /// and backtrace lines, each only where present.
    fn render_narrative(&self) -> (r: String)
        ensures
            r@ == narrative_model(self@),
    {
        let mut out = self.to_display_string();
        match &self.context {
            Some(c) => {
                out.append("\nContext: ");
                out.append(c.display.as_str());
            },
            None => {},
        }
        match &self.source {
            Some(f) => {
                proof {
                    lemma_view_shape(f);
                }
                match &f.source {
                    Some(b) => {
                        proof {
                            lemma_view_shape(b);
                        }
                        out.append("\nCaused by: ");
                        out.append(b.display.as_str());
                    },
                    None => {},
                }
            },
            None => {},
        }
        match &self.backtrace {
            Some(bt) => {
                out.append("\n");
                out.append(bt.as_str());
            },
            None => {},
        }
        proof {
            assert(out@ =~= narrative_model(self@));
        }
        out
    }

    /// The structured debug mode: a labeled record of the source, context and
    /// backtrace fields, each through its debug rendering.
    fn render_structured(&self) -> (r: String)
        ensures
            r@ == structured_model(self@),
    {
        let mut out = "Error { source: ".to_owned();
        match &self.source {
            Some(f) => {
                proof {
                    lemma_view_shape(f);
                }
                out.append("Some(");
                out.append(f.debug.as_str());
                out.append(")");
            },
            None => out.append("None"),
        }
        out.append(", context: ");
        match &self.context {
            Some(c) => {
                out.append("Some(");
                out.append(c.debug.as_str());
                out.append(")");
            },
            None => out.append("None"),
        }
        out.append(", backtrace: ");
        match &self.backtrace {
            Some(b) => {
                out.append("Some(");
                out.append(b.as_str());
                out.append(")");
            },
            None => out.append("None"),
        }
        out.append(" }");
        proof {
            assert(out@ =~= structured_model(self@));
        }
        out
    }
}

/// Extension trait for attaching lazily produced context to an error value.
pub trait ErrorExt: Sized {
    /// The abstract state of the error.
    spec fn model(self) -> ErrorModel;

    /// Attach a context annotation produced by the given function, replacing
    /// any previous annotation.
    fn with_context<C: Context, F: FnOnce() -> C>(self, f: F) -> (r: Self)
        requires
            call_requires(f, ()),
        ensures
            exists|c: C|
                #[trigger] call_ensures(f, (), c) && r.model() == with_context_model(
                    self.model(),
                    CtxView { display: c.display_view(), debug: c.debug_view() },
                ),
    ;
}

impl ErrorExt for Error {
    open spec fn model(self) -> ErrorModel {
        self@
    }

    fn with_context<C: Context, F: FnOnce() -> C>(self, f: F) -> (r: Self) {
        let c = f();
        self.context(c)
    }
}

/// Law: wrapping a failure chain and downcasting with the identity token of
/// its first link is a round trip; exactly the wrapped chain comes back.
pub proof fn lemma_downcast_round_trip(chain: Seq<Link>, backtrace: Option<Seq<char>>)
    requires
        chain.len() > 0,
    ensures
        downcast_model(new_model(chain, backtrace), chain[0].token) == Ok::<Seq<Link>, ErrorModel>(
            chain,
        ),
{
}

/// Law: downcasting a freshly wrapped failure with any token other than the
/// identity token of its first link gives the error back unchanged; in
/// particular its display rendering is the same before and after.
pub proof fn lemma_downcast_mismatch(chain: Seq<Link>, backtrace: Option<Seq<char>>, token: u64)
    requires
        chain.len() > 0,
        token != chain[0].token,
    ensures
        downcast_model(new_model(chain, backtrace), token) == Err::<Seq<Link>, ErrorModel>(
            new_model(chain, backtrace),
        ),
        display_model(new_model(chain, backtrace)) == chain[0].display,
{
}

/// Law: a message-only error, whose chain is the one link holding the
/// message's display text, renders exactly that text.
pub proof fn lemma_message_display(m: ErrorModel, text: Seq<char>)
    requires
        m.chain.len() == 1,
        m.chain[0].display == text,
    ensures
        display_model(m) == text,
{
}

/// Law: a message-only error, which records the reserved message token, is
/// never recovered under any other token; such a downcast hands the error
/// back unchanged.
pub proof fn lemma_message_not_downcastable(m: ErrorModel, token: u64)
    requires
        m.token == MESSAGE_TOKEN,
        token != MESSAGE_TOKEN,
    ensures
        downcast_model(m, token) == Err::<Seq<Link>, ErrorModel>(m),
{
}

/// Law: attaching one context annotation and then another leaves only the
/// second one observable; the last write wins and nothing else changes.
pub proof fn lemma_context_overwrite(m: ErrorModel, a: CtxView, b: CtxView)
    ensures
        with_context_model(with_context_model(m, a), b) == with_context_model(m, b),
{
}

/// Law: chain traversal is restartable. Every traversal obtained from an
/// error starts with that error's full chain, so any two of them carry
/// identical contents.
pub proof fn lemma_chain_restartable(m: ErrorModel, first: Seq<Link>, second: Seq<Link>)
    requires
        first == m.chain,
        second == m.chain,
    ensures
        first == second,
{
}

} // verus!
