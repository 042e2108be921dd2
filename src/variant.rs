use crate::attr::{diagnostics_after_set, stored_after_set, Attr};
use crate::context::Context;
use crate::directive::{decimal_u32, name_is, parse_u32_digits, Directive, Lit};
use crate::string_util::{snake_case, to_snake_case};
use crate::tag::{is_valid_tag, validate, LARGE_TAG_MESSAGE, ZERO_TAG_MESSAGE};
use proc_macro2::TokenStream;
use vstd::prelude::*;

verus! {

/// Message reported at a tag literal too large for 32 bits.
pub const TAG_LITERAL_MESSAGE: &'static str = "expected an integer literal that fits in u32";

/// Message reported at a variant that carries no tag.
pub const MISSING_TAG_MESSAGE: &'static str = "expected a valid tag #[steit(tag = ...)]";

/// Which directive of a variant a piece of syntax is, by the matchers tried
/// in order: `tag = <integer>`, bare `default`, `default = <boolean>`.
pub enum DirectiveShape {
    /// `tag = <integer>`, with the number when it fits in 32 bits.
    Tag(Option<u32>),
    /// `default` or `default = <boolean>`, with the flag it sets.
    Default(bool),
    /// A directive that belongs to someone else.
    Unknown,
}

/// The shape of `d`.
pub open spec fn shape_of(d: Directive) -> DirectiveShape {
    match d {
        Directive::Path { name, .. } => if name@ == "default"@ {
            DirectiveShape::Default(true)
        } else {
            DirectiveShape::Unknown
        },
        Directive::NameValue { name, lit, .. } => match lit {
            Lit::Int(digits) => if name@ == "tag"@ {
                DirectiveShape::Tag(decimal_u32(digits@))
            } else {
                DirectiveShape::Unknown
            },
            Lit::Bool(b) => if name@ == "default"@ {
                DirectiveShape::Default(b)
            } else {
                DirectiveShape::Unknown
            },
            Lit::Other => DirectiveShape::Unknown,
        },
        Directive::Other { .. } => DirectiveShape::Unknown,
    }
}

/// Matches `d` against the directives a variant owns.
pub fn shape(d: &Directive) -> (r: DirectiveShape)
    ensures
        r == shape_of(*d),
{
    match d {
        Directive::Path { name, .. } => if name_is(name, "default") {
            DirectiveShape::Default(true)
        } else {
            DirectiveShape::Unknown
        },
        Directive::NameValue { name, lit, .. } => match lit {
            Lit::Int(digits) => if name_is(name, "tag") {
                DirectiveShape::Tag(parse_u32_digits(digits.as_str()))
            } else {
                DirectiveShape::Unknown
            },
            Lit::Bool(b) => if name_is(name, "default") {
                DirectiveShape::Default(*b)
            } else {
                DirectiveShape::Unknown
            },
            Lit::Other => DirectiveShape::Unknown,
        },
        Directive::Other { .. } => DirectiveShape::Unknown,
    }
}

/// What a scan of a variant's directives has gathered: the tag slot, the
/// default slot, the diagnostics reported, and the directives left unknown.
pub type Scan = (
    Option<(u32, TokenStream)>,
    Option<(bool, TokenStream)>,
    Seq<(Seq<char>, TokenStream)>,
    Seq<Directive>,
);

/// The scan `s` after the directive `d`.
pub open spec fn scan_step(s: Scan, d: Directive) -> Scan {
    match shape_of(d) {
        DirectiveShape::Tag(Some(value)) => (
            stored_after_set(s.0, d.tokens_view(), value),
            s.1,
            diagnostics_after_set("tag"@, s.0, s.2, d.tokens_view()),
            s.3,
        ),
        DirectiveShape::Tag(None) => (s.0, s.1, s.2.push((TAG_LITERAL_MESSAGE@, d.tokens_view())), s.3),
        DirectiveShape::Default(value) => (
            s.0,
            stored_after_set(s.1, d.tokens_view(), value),
            diagnostics_after_set("default"@, s.1, s.2, d.tokens_view()),
            s.3,
        ),
        DirectiveShape::Unknown => (s.0, s.1, s.2, s.3.push(d)),
    }
}

/// The scan of `directives`, in order, from empty slots.
pub open spec fn scan(directives: Seq<Directive>) -> Scan
    decreases directives.len(),
{
    if directives.len() == 0 {
        (None, None, Seq::empty(), Seq::empty())
    } else {
        scan_step(scan(directives.drop_last()), directives.last())
    }
}

/// Whether a variant with `directives` carries a tag that the wire format accepts.
pub open spec fn has_valid_tag(directives: Seq<Directive>) -> bool {
    scan(directives).0 matches Some((tag, _)) && is_valid_tag(tag)
}

/// The diagnostics that parsing a variant with `directives`, declared as
/// `variant_tokens`, records: those of the scan, then the missing tag at the
/// variant or the invalid tag at its literal.
pub open spec fn parse_diagnostics(directives: Seq<Directive>, variant_tokens: TokenStream) -> Seq<(Seq<char>, TokenStream)> {
    let s = scan(directives);
    match s.0 {
        None => s.2.push((MISSING_TAG_MESSAGE@, variant_tokens)),
        Some((tag, tag_tokens)) => if is_valid_tag(tag) {
            s.2
        } else {
            s.2.push((tag_message(tag), tag_tokens))
        },
    }
}

/// A variant with no `tag` directive, and at most one `default` directive,
/// fails to parse and records exactly one diagnostic: the missing tag,
/// anchored at the variant declaration.
pub proof fn lemma_untagged_variant_reports_once(directives: Seq<Directive>, variant_tokens: TokenStream)
    requires
        forall|i: int| 0 <= i < directives.len() ==> !(shape_of(#[trigger] directives[i]) is Tag),
        forall|i: int, j: int|
            0 <= i < j < directives.len() ==> !(shape_of(#[trigger] directives[i]) is Default
                && shape_of(#[trigger] directives[j]) is Default),
    ensures
        !has_valid_tag(directives),
        parse_diagnostics(directives, variant_tokens) == seq![(MISSING_TAG_MESSAGE@, variant_tokens)],
{
    lemma_untagged_scan(directives);
    assert(parse_diagnostics(directives, variant_tokens) =~= seq![(MISSING_TAG_MESSAGE@, variant_tokens)]);
}

/// Scanning directives with no `tag` and at most one `default` gathers no
/// tag and reports nothing.
proof fn lemma_untagged_scan(directives: Seq<Directive>)
    requires
        forall|i: int| 0 <= i < directives.len() ==> !(shape_of(#[trigger] directives[i]) is Tag),
        forall|i: int, j: int|
            0 <= i < j < directives.len() ==> !(shape_of(#[trigger] directives[i]) is Default
                && shape_of(#[trigger] directives[j]) is Default),
    ensures
        scan(directives).0 is None,
        scan(directives).2.len() == 0,
        scan(directives).1 is Some ==> exists|i: int|
            0 <= i < directives.len() && (#[trigger] shape_of(directives[i])) is Default,
    decreases directives.len(),
{
    if directives.len() > 0 {
        let prefix = directives.drop_last();
        assert forall|i: int| 0 <= i < prefix.len() implies !(shape_of(#[trigger] prefix[i]) is Tag) by {
            assert(prefix[i] == directives[i]);
        }
        assert forall|i: int, j: int| 0 <= i < j < prefix.len() implies !(shape_of(
            #[trigger] prefix[i],
        ) is Default && shape_of(#[trigger] prefix[j]) is Default) by {
            assert(prefix[i] == directives[i]);
            assert(prefix[j] == directives[j]);
        }
        lemma_untagged_scan(prefix);
        let last = directives.len() - 1;
        assert(directives.last() == directives[last]);
        if scan(prefix).1 is Some {
            let i = choose|i: int| 0 <= i < prefix.len() && (#[trigger] shape_of(prefix[i])) is Default;
            assert(prefix[i] == directives[i]);
        }
    }
}

/// The message the tag validator reports for the invalid tag `tag`.
pub open spec fn tag_message(tag: u32) -> Seq<char> {
    if tag == 0 {
        ZERO_TAG_MESSAGE@
    } else {
        LARGE_TAG_MESSAGE@
    }
}

/// The directives of one variant that this layer owns, once validated.
pub struct VariantAttrs {
    tag: u32,
    tag_tokens: TokenStream,
    default: Option<(bool, TokenStream)>,
}

impl VariantAttrs {
    #[verifier::type_invariant]
    spec fn valid(&self) -> bool {
        is_valid_tag(self.tag)
    }

    /// The validated tag.
    pub closed spec fn tag_view(&self) -> u32 {
        self.tag
    }

    /// The tokens of the tag literal.
    pub closed spec fn tag_tokens_view(&self) -> TokenStream {
        self.tag_tokens
    }

    /// The default flag and its tokens, if the variant set it.
    pub closed spec fn default_view(&self) -> Option<(bool, TokenStream)> {
        self.default
    }

    /// Reads the tag and default directives out of `directives`, reports
    /// problems into `context`, and hands back the directives it does not own.
    /// A variant without a valid tag is reported, at `variant_tokens` when it
    /// has no tag at all and at the tag literal otherwise, and gives `Err`.
    pub fn parse(context: &mut Context, directives: Vec<Directive>, variant_tokens: TokenStream) -> (r:
        Result<(Self, Vec<Directive>), ()>)
        ensures
            final(context)@ == old(context)@ + parse_diagnostics(directives@, variant_tokens),
            r is Ok <==> has_valid_tag(directives@),
            r matches Ok((attrs, unknown)) ==> {
                &&& scan(directives@).0 == Some((attrs.tag_view(), attrs.tag_tokens_view()))
                &&& attrs.default_view() == scan(directives@).1
                &&& unknown@ == scan(directives@).3
            },
    {
        let ghost all = directives@;
        let ghost start = context@;
        let mut tag: Attr<u32> = Attr::new("tag");
        let mut default: Attr<bool> = Attr::new("default");
        let mut unknown: Vec<Directive> = Vec::new();
        let mut rest = directives;
        let n: usize = rest.len();
        let mut i: usize = 0;
        while rest.len() > 0
            invariant
                n == all.len(),
                i <= n,
                rest@ == all.skip(i as int),
                tag.name_view() == "tag"@,
                default.name_view() == "default"@,
                tag.stored() == scan(all.take(i as int)).0,
                default.stored() == scan(all.take(i as int)).1,
                context@ == start + scan(all.take(i as int)).2,
                unknown@ == scan(all.take(i as int)).3,
            decreases rest.len(),
        {
            assert(rest@.len() == all.len() - i);
            let d = rest.remove(0);
            proof {
                assert(all.take(i as int + 1).drop_last() =~= all.take(i as int));
                assert(all.skip(i as int + 1) =~= all.skip(i as int).drop_first());
            }
            let ghost before = scan(all.take(i as int));
            match shape(&d) {
                DirectiveShape::Tag(Some(value)) => {
                    tag.set(context, d.into_tokens(), value);
                    proof {
                        assert(diagnostics_after_set("tag"@, before.0, start + before.2, all[i as int].tokens_view())
                            =~= start + diagnostics_after_set("tag"@, before.0, before.2, all[i as int].tokens_view()));
                    }
                },
                DirectiveShape::Tag(None) => {
                    context.error(d.into_tokens(), String::from_str(TAG_LITERAL_MESSAGE));
                    proof {
                        assert(context@ =~= start + before.2.push((TAG_LITERAL_MESSAGE@, all[i as int].tokens_view())));
                    }
                },
                DirectiveShape::Default(value) => {
                    default.set(context, d.into_tokens(), value);
                    proof {
                        assert(diagnostics_after_set("default"@, before.1, start + before.2, all[i as int].tokens_view())
                            =~= start + diagnostics_after_set("default"@, before.1, before.2, all[i as int].tokens_view()));
                    }
                },
                DirectiveShape::Unknown => {
                    unknown.push(d);
                },
            }
            i = i + 1;
        }
        assert(all.take(i as int) =~= all);
        let (tag, tag_tokens) = match tag.get_with_tokens() {
            Some(found) => found,
            None => {
                context.error(variant_tokens, String::from_str(MISSING_TAG_MESSAGE));
                assert(context@ =~= start + scan(all).2.push((MISSING_TAG_MESSAGE@, variant_tokens)));
                return Err(());
            },
        };
        match validate(tag) {
            Ok(()) => {},
            Err(message) => {
                context.error(tag_tokens, String::from_str(message));
                assert(context@ =~= start + scan(all).2.push((tag_message(tag), tag_tokens)));
                return Err(());
            },
        }
        let default = default.get_with_tokens();
        Ok((VariantAttrs { tag, tag_tokens, default }, unknown))
    }
}

/// One variant of a sum-type declaration, as the syntax walker hands it over.
pub struct RawVariant {
    /// The declared name, such as `FooBar`.
    pub name: String,
    /// The directives attached to the variant, in order.
    pub directives: Vec<Directive>,
    /// The tokens of the whole variant declaration.
    pub tokens: TokenStream,
}

/// A variant whose tag was found and validated.
pub struct Variant {
    name: String,
    attrs: VariantAttrs,
}

impl Variant {
    /// The declared name.
    pub closed spec fn name_view(&self) -> Seq<char> {
        self.name@
    }

    /// The validated tag.
    pub closed spec fn tag_view(&self) -> u32 {
        self.attrs.tag_view()
    }

    /// The tokens of the tag literal.
    pub closed spec fn tag_tokens_view(&self) -> TokenStream {
        self.attrs.tag_tokens_view()
    }

    /// The default flag and its tokens, if the variant set it.
    pub closed spec fn default_view(&self) -> Option<(bool, TokenStream)> {
        self.attrs.default_view()
    }

    /// Parses one variant. Its directives are scanned in order; problems are
    /// reported into `context`; the directives this layer does not own come
    /// back untouched, in order. Without a valid tag the result is `Err`, and
    /// the reason is in `context`.
    pub fn parse(context: &mut Context, variant: RawVariant) -> (r: Result<(Self, Vec<Directive>), ()>)
        ensures
            final(context)@ == old(context)@ + parse_diagnostics(variant.directives@, variant.tokens),
            r is Ok <==> has_valid_tag(variant.directives@),
            r matches Ok((v, unknown)) ==> {
                &&& v.name_view() == variant.name@
                &&& scan(variant.directives@).0 == Some((v.tag_view(), v.tag_tokens_view()))
                &&& v.default_view() == scan(variant.directives@).1
                &&& unknown@ == scan(variant.directives@).3
            },
    {
        let RawVariant { name, directives, tokens } = variant;
        match VariantAttrs::parse(context, directives, tokens) {
            Ok((attrs, unknown)) => Ok((Variant { name, attrs }, unknown)),
            Err(()) => Err(()),
        }
    }

    /// The validated tag.
    pub fn tag(&self) -> (r: u32)
        ensures
            r == self.tag_view(),
            is_valid_tag(r),
    {
        proof {
            use_type_invariant(&self.attrs);
        }
        self.attrs.tag
    }

    /// The validated tag and the tokens of its literal, for checks that span
    /// several variants.
    pub fn tag_with_tokens(&self) -> (r: (u32, &TokenStream))
        ensures
            r.0 == self.tag_view(),
            *r.1 == self.tag_tokens_view(),
            is_valid_tag(r.0),
    {
        proof {
            use_type_invariant(&self.attrs);
        }
        (self.attrs.tag, &self.attrs.tag_tokens)
    }

    /// The default flag with its tokens; `(false, None)` if it was not set.
    pub fn default_with_tokens(&self) -> (r: (bool, Option<&TokenStream>))
        ensures
            match self.default_view() {
                None => r.0 == false && r.1 is None,
                Some((value, tokens)) => r.0 == value && (r.1 matches Some(t) && *t == tokens),
            },
    {
        match &self.attrs.default {
            Some((default, default_tokens)) => (*default, Some(default_tokens)),
            None => (false, None),
        }
    }

    /// The declared name in lower snake case, as a generated symbol.
    pub fn snake_case_name(&self) -> (r: String)
        ensures
            r@ == snake_case(self.name_view()),
    {
        to_snake_case(self.name.as_str())
    }

    /// The path fragment `::Name` that names the variant inside its enum.
    pub fn qual(&self) -> (r: String)
        ensures
            r@ == "::"@ + self.name_view(),
    {
        let mut r = String::from_str("::");
        r.append(self.name.as_str());
        r
    }

    /// The constructor name `new_<snake case name>`.
    pub fn ctor_name(&self) -> (r: String)
        ensures
            r@ == "new_"@ + snake_case(self.name_view()),
    {
        let snake = self.snake_case_name();
        let mut r = String::from_str("new_");
        r.append(snake.as_str());
        r
    }
}

} // verus!
