use vstd::prelude::*;

use crate::error::CtxView;
use crate::error::Error;
use crate::error::new_model;
use crate::error::with_context_model;
use crate::failure::Failure;
use crate::failure::Link;

verus! {

/// The capability an annotation value must offer to be attachable as context:
/// a display rendering and a debug rendering. Owned and borrowed text satisfy
/// it out of the box; any other type may implement the same two renderings.
pub trait Context {
    /// The display rendering, abstractly.
    spec fn display_view(&self) -> Seq<char>;

    /// The debug rendering, abstractly.
    spec fn debug_view(&self) -> Seq<char>;

    /// Produce the display rendering.
    fn display_text(&self) -> (r: String)
        ensures
            r@ == self.display_view(),
    ;

    /// Produce the debug rendering.
    fn debug_text(&self) -> (r: String)
        ensures
            r@ == self.debug_view(),
    ;
}

impl Context for String {
    open spec fn display_view(&self) -> Seq<char> {
        self@
    }

    open spec fn debug_view(&self) -> Seq<char> {
        self@
    }

    fn display_text(&self) -> (r: String) {
        self.clone()
    }

    fn debug_text(&self) -> (r: String) {
        self.clone()
    }
}

impl Context for &str {
    open spec fn display_view(&self) -> Seq<char> {
        self@
    }

    open spec fn debug_view(&self) -> Seq<char> {
        self@
    }

    fn display_text(&self) -> (r: String) {
        (*self).to_owned()
    }

    fn debug_text(&self) -> (r: String) {
        (*self).to_owned()
    }
}

/// Extension trait that lifts a fallible computation's failure branch into
/// the uniform error container, attaching context on the way.
pub trait ContextExt<T>: Sized {
    /// The computation's success value, abstractly.
    spec fn success(self) -> Option<T>;

    /// The chain of the computation's failure, abstractly; meaningful only
    /// where there is no success value.
    spec fn failure_chain(self) -> Seq<Link>;

    /// On success, pass the value through unchanged. On failure, wrap the
    /// failure into an error, no backtrace captured, and attach the given,
    /// eagerly evaluated context annotation.
    fn context<C: Context>(self, context: C) -> (r: core::result::Result<T, Error>)
        ensures
            self.success() matches Some(v) ==> r == Ok::<T, Error>(v),
            self.success() is None ==> (r matches Err(e) && e@ == with_context_model(
                new_model(self.failure_chain(), None),
                CtxView { display: context.display_view(), debug: context.debug_view() },
            )),
    ;

    /// Like [`ContextExt::context`], but the annotation is produced by the
    /// given function, which is invoked only where the computation failed,
    /// never on the success path.
    fn with_context<C: Context, F: FnOnce() -> C>(self, f: F) -> (r: core::result::Result<
        T,
        Error,
    >)
        requires
            self.success() is None ==> call_requires(f, ()),
        ensures
            self.success() matches Some(v) ==> r == Ok::<T, Error>(v),
            self.success() is None ==> (r matches Err(e) && exists|c: C|
                #[trigger] call_ensures(f, (), c) && e@ == with_context_model(
                    new_model(self.failure_chain(), None),
                    CtxView { display: c.display_view(), debug: c.debug_view() },
                )),
    ;
}

impl<T> ContextExt<T> for core::result::Result<T, Failure> {
    open spec fn success(self) -> Option<T> {
        match self {
            Ok(v) => Some(v),
            Err(_) => None,
        }
    }

    open spec fn failure_chain(self) -> Seq<Link> {
        match self {
            Ok(_) => Seq::empty(),
            Err(f) => f@,
        }
    }

    fn context<C: Context>(self, context: C) -> (r: core::result::Result<T, Error>) {
        match self {
            Ok(v) => Ok(v),
            Err(failure) => Err(Error::new(failure).context(context)),
        }
    }

    fn with_context<C: Context, F: FnOnce() -> C>(self, f: F) -> (r: core::result::Result<
        T,
        Error,
    >) {
        match self {
            Ok(v) => Ok(v),
            Err(failure) => {
                let c = f();
                Err(Error::new(failure).context(c))
            },
        }
    }
}

} // verus!
