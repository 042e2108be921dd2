use proc_macro2::TokenStream;
use vstd::prelude::*;

verus! {

/// Source tokens, used as the location a diagnostic points at.
#[verifier::external_type_specification]
#[verifier::external_body]
pub struct ExTokenStream(proc_macro2::TokenStream);

/// Relies on `proc_macro2::TokenStream::new`: it builds an empty stream and
/// cannot fail.
pub assume_specification[ proc_macro2::TokenStream::new ]() -> proc_macro2::TokenStream;

/// One schema error: a message and the tokens it is anchored at.
pub struct Diagnostic {
    pub message: String,
    pub tokens: TokenStream,
}

impl View for Diagnostic {
    type V = (Seq<char>, TokenStream);

    open spec fn view(&self) -> (Seq<char>, TokenStream) {
        (self.message@, self.tokens)
    }
}

/// The views of `diagnostics`, in order.
pub open spec fn diagnostics_view(diagnostics: Seq<Diagnostic>) -> Seq<(Seq<char>, TokenStream)> {
    diagnostics.map_values(|d: Diagnostic| d@)
}

impl Diagnostic {
    /// A diagnostic with `message`, anchored at `tokens`.
    pub fn new(tokens: TokenStream, message: String) -> (r: Self)
        ensures
            r.message@ == message@,
            r.tokens == tokens,
    {
        Diagnostic { message, tokens }
    }
}

/// Collects every diagnostic of one compilation pass.
///
/// Errors are recorded, never thrown, so that one pass reports every
/// independent problem. A context is finished by `check`, which consumes it
/// and hands the diagnostics out in the order they were recorded.
#[must_use]
pub struct Context {
    errors: Vec<Diagnostic>,
}

impl View for Context {
    type V = Seq<(Seq<char>, TokenStream)>;

    /// The diagnostics recorded so far, oldest first.
    closed spec fn view(&self) -> Seq<(Seq<char>, TokenStream)> {
        diagnostics_view(self.errors@)
    }
}

impl Context {
    /// A context with no diagnostics.
    pub fn new() -> (r: Self)
        ensures
            r@ == Seq::<(Seq<char>, TokenStream)>::empty(),
    {
        let r = Context { errors: Vec::new() };
        assert(r@ =~= Seq::<(Seq<char>, TokenStream)>::empty());
        r
    }

    /// Records `message` at `tokens`, and returns empty tokens to stand in
    /// place of the construct that failed.
    pub fn error(&mut self, tokens: TokenStream, message: String) -> (r: TokenStream)
        ensures
            final(self)@ == old(self)@.push((message@, tokens)),
    {
        self.syn_error(Diagnostic { message, tokens })
    }

    /// Records a diagnostic that was built elsewhere, and returns empty tokens
    /// to stand in place of the construct that failed.
    pub fn syn_error(&mut self, error: Diagnostic) -> (r: TokenStream)
        ensures
            final(self)@ == old(self)@.push(error@),
    {
        self.errors.push(error);
        proof {
            assert(diagnostics_view(self.errors@) =~= old(self)@.push(error@));
        }
        TokenStream::new()
    }

    /// Finishes the pass: `Ok` when nothing was recorded, else every
    /// diagnostic in the order it was recorded.
    pub fn check(self) -> (r: Result<(), Vec<Diagnostic>>)
        ensures
            r is Ok <==> self@.len() == 0,
            r matches Err(errors) ==> diagnostics_view(errors@) == self@,
    {
        let errors = self.errors;
        if errors.len() == 0 {
            Ok(())
        } else {
            Err(errors)
        }
    }
}

} // verus!
