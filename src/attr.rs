use crate::context::Context;
use proc_macro2::TokenStream;
use vstd::prelude::*;

verus! {

/// An accepted directive value, with the tokens it was written as.
pub struct AttrValue<T> {
    value: T,
    tokens: TokenStream,
}

impl<T> View for AttrValue<T> {
    type V = (T, TokenStream);

    closed spec fn view(&self) -> (T, TokenStream) {
        (self.value, self.tokens)
    }
}

impl<T> AttrValue<T> {
    /// The accepted value.
    pub fn get(&self) -> (r: &T)
        ensures
            *r == self@.0,
    {
        &self.value
    }

    /// The tokens the accepted value was written as.
    pub fn tokens(&self) -> (r: &TokenStream)
        ensures
            *r == self@.1,
    {
        &self.tokens
    }

    /// The accepted value and its tokens.
    pub fn into_parts(self) -> (r: (T, TokenStream))
        ensures
            r == self@,
    {
        (self.value, self.tokens)
    }
}

/// The message reported when the directive `name` occurs a second time.
pub open spec fn duplicate_message(name: Seq<char>) -> Seq<char> {
    "duplicate attribute `"@ + name + "`"@
}

/// A slot for the value of one named directive of one declaration.
///
/// The first occurrence of the directive fills the slot; every later one is
/// reported as a duplicate and leaves the slot as it was.
pub struct Attr<T> {
    name: &'static str,
    value: Option<AttrValue<T>>,
}

/// What a slot holding `stored` holds after an occurrence of `value` at `tokens`.
pub open spec fn stored_after_set<T>(stored: Option<(T, TokenStream)>, tokens: TokenStream, value: T) -> Option<(T, TokenStream)> {
    match stored {
        None => Some((value, tokens)),
        Some(first) => Some(first),
    }
}

/// The diagnostics after a slot named `name` and holding `stored` met an
/// occurrence at `tokens`.
pub open spec fn diagnostics_after_set<T>(
    name: Seq<char>,
    stored: Option<(T, TokenStream)>,
    diagnostics: Seq<(Seq<char>, TokenStream)>,
    tokens: TokenStream,
) -> Seq<(Seq<char>, TokenStream)> {
    match stored {
        None => diagnostics,
        Some(_) => diagnostics.push((duplicate_message(name), tokens)),
    }
}

/// The slot contents and the diagnostics after `occurrences` (tokens and
/// value of each) were offered in order to a slot named `name` holding
/// `stored`.
pub open spec fn after_sets<T>(
    name: Seq<char>,
    stored: Option<(T, TokenStream)>,
    diagnostics: Seq<(Seq<char>, TokenStream)>,
    occurrences: Seq<(TokenStream, T)>,
) -> (Option<(T, TokenStream)>, Seq<(Seq<char>, TokenStream)>)
    decreases occurrences.len(),
{
    if occurrences.len() == 0 {
        (stored, diagnostics)
    } else {
        let (tokens, value) = occurrences[0];
        after_sets(
            name,
            stored_after_set(stored, tokens, value),
            diagnostics_after_set(name, stored, diagnostics, tokens),
            occurrences.drop_first(),
        )
    }
}

/// The duplicate diagnostics reported for `occurrences` of the directive `name`.
pub open spec fn duplicates_of<T>(name: Seq<char>, occurrences: Seq<(TokenStream, T)>) -> Seq<(Seq<char>, TokenStream)> {
    occurrences.map_values(|o: (TokenStream, T)| (duplicate_message(name), o.0))
}

/// A full slot keeps its value, and reports each occurrence offered to it as
/// a duplicate at that occurrence's tokens, in order.
pub proof fn lemma_full_slot_keeps_value<T>(
    name: Seq<char>,
    first: (T, TokenStream),
    diagnostics: Seq<(Seq<char>, TokenStream)>,
    occurrences: Seq<(TokenStream, T)>,
)
    ensures
        after_sets(name, Some(first), diagnostics, occurrences) == (
            Some(first),
            diagnostics + duplicates_of(name, occurrences),
        ),
    decreases occurrences.len(),
{
    if occurrences.len() == 0 {
        assert(diagnostics + duplicates_of(name, occurrences) =~= diagnostics);
    } else {
        let rest = occurrences.drop_first();
        let next = diagnostics.push((duplicate_message(name), occurrences[0].0));
        lemma_full_slot_keeps_value(name, first, next, rest);
        assert(next + duplicates_of(name, rest) =~= diagnostics + duplicates_of(name, occurrences));
    }
}

/// First occurrence wins: of N occurrences offered to an empty slot, the
/// first is stored with its tokens, and each of the other N - 1 is reported
/// once as a duplicate at its own tokens, in order.
pub proof fn lemma_first_occurrence_wins<T>(
    name: Seq<char>,
    diagnostics: Seq<(Seq<char>, TokenStream)>,
    occurrences: Seq<(TokenStream, T)>,
)
    requires
        occurrences.len() > 0,
    ensures
        after_sets(name, None, diagnostics, occurrences) == (
            Some((occurrences[0].1, occurrences[0].0)),
            diagnostics + duplicates_of(name, occurrences.drop_first()),
        ),
        duplicates_of(name, occurrences.drop_first()).len() == occurrences.len() - 1,
{
    lemma_full_slot_keeps_value(
        name,
        (occurrences[0].1, occurrences[0].0),
        diagnostics,
        occurrences.drop_first(),
    );
}

impl<T> Attr<T> {
    /// The directive name the slot reports duplicates under.
    pub closed spec fn name_view(&self) -> Seq<char> {
        self.name@
    }

    /// The accepted value and its tokens, if any occurrence was accepted.
    pub closed spec fn stored(&self) -> Option<(T, TokenStream)> {
        match self.value {
            None => None,
            Some(v) => Some(v@),
        }
    }

    /// An empty slot for the directive `name`.
    pub fn new(name: &'static str) -> (r: Self)
        ensures
            r.name_view() == name@,
            r.stored() is None,
    {
        Attr { name, value: None }
    }

    /// Offers an occurrence of the directive, written as `tokens`, with `value`.
    /// An empty slot takes it; a full one keeps its value and reports a
    /// duplicate at `tokens`.
    pub fn set(&mut self, context: &mut Context, tokens: TokenStream, value: T)
        ensures
            final(self).name_view() == old(self).name_view(),
            final(self).stored() == stored_after_set(old(self).stored(), tokens, value),
            final(context)@ == diagnostics_after_set(
                old(self).name_view(),
                old(self).stored(),
                old(context)@,
                tokens,
            ),
    {
        if self.value.is_some() {
            let mut message = String::from_str("duplicate attribute `");
            message.append(self.name);
            message.append("`");
            context.error(tokens, message);
        } else {
            self.value = Some(AttrValue { value, tokens });
        }
    }

    /// The accepted value, if any.
    pub fn value(self) -> (r: Option<AttrValue<T>>)
        ensures
            match r {
                None => self.stored() is None,
                Some(v) => self.stored() == Some(v@),
            },
    {
        self.value
    }

    /// The accepted value and its tokens, if any.
    pub fn get_with_tokens(self) -> (r: Option<(T, TokenStream)>)
        ensures
            r == self.stored(),
    {
        match self.value {
            None => None,
            Some(v) => Some(v.into_parts()),
        }
    }
}

} // verus!
