//! The emitted codecs: rendering, the string-matching algorithm, and the
//! serializer/deserializer adapters.
//!
//! A [`LabeledCodec`] is the artifact generated for an enum in labeled
//! mode: a table of canonical and alias strings in declaration order,
//! together with the case policy and the error tier chosen at generation
//! time.  Rendering returns the canonical string of a variant; parsing
//! tests the variants in declaration order, the canonical string before
//! the aliases within each variant, and the first match wins.
//!
//! Custom mode wraps a caller-supplied render/parse pair
//! ([`StringCodec`]) and contributes no matching logic of its own: it only
//! translates the caller's parse failure into the visitor protocol's
//! invalid-value error.

use vstd::prelude::*;
use vstd::pervasive::cloned;
use vstd::string::StringExecFns;
use crate::parse::{spec_attrs, LabeledStringInput, RawDecl, RawVariant, Variant};
use crate::text::{case_fold, eq_case_insensitive, expecting_message, invalid_message, str_eq};

verus! {

/// How parsing compares the input against the stored strings: byte for
/// byte, or under case-folding equality.  The stored strings are never
/// mutated either way.
#[derive(Clone, Copy, Debug)]
pub enum CasePolicy {
    CaseSensitive,
    CaseInsensitive,
}

/// What the runtime environment lets a decode error carry: a fully
/// formatted message, a message built with a minimal formatting primitive
/// (the same text), or, where nothing can be allocated, a fixed literal.
#[derive(Clone, Copy, Debug)]
pub enum ErrorTier {
    FullAlloc,
    AllocOnly,
    NoAlloc,
}

/// One entry of a labeled codec's table: a variant's name, its canonical
/// string, and its aliases in declaration order.
#[derive(Debug)]
pub struct CodecVariant {
    pub ident: String,
    pub string: String,
    pub aliases: Vec<String>,
}

/// The codec emitted for an enum in labeled mode.  Variants are
/// identified by their position in declaration order.
#[derive(Debug)]
pub struct LabeledCodec {
    pub ident: String,
    pub variants: Vec<CodecVariant>,
    pub case: CasePolicy,
    pub tier: ErrorTier,
}

/// A decode failure: the input matched no canonical string and no alias.
#[derive(Debug, PartialEq, Eq)]
pub enum DecodeError {
    InvalidValue { enum_name: String, input: String, message: String },
}

/// The invalid-value error of the visitor protocol: the rejected input
/// together with a description of what was expected.
#[derive(Debug, PartialEq, Eq)]
pub struct VisitError {
    pub unexpected: String,
    pub expecting: String,
}

/// Whether `input` counts as equal to `candidate` under the case policy.
pub open spec fn str_matches(case: CasePolicy, input: Seq<char>, candidate: Seq<char>) -> bool {
    match case {
        CasePolicy::CaseSensitive => input == candidate,
        CasePolicy::CaseInsensitive => case_fold(input) == case_fold(candidate),
    }
}

/// Whether `input` matches the variant's canonical string or one of its
/// aliases.
pub open spec fn variant_matches(case: CasePolicy, v: CodecVariant, input: Seq<char>) -> bool {
    str_matches(case, input, v.string@) || (exists|k: int|
        0 <= k < v.aliases@.len() && str_matches(case, input, #[trigger] v.aliases@[k]@))
}

/// The position of the first variant at or after `i` that the input
/// matches, if any.
pub open spec fn first_match_from(
    case: CasePolicy,
    vs: Seq<CodecVariant>,
    input: Seq<char>,
    i: int,
) -> Option<int>
    decreases vs.len() - i,
{
    if i < 0 || i >= vs.len() {
        None
    } else if variant_matches(case, vs[i], input) {
        Some(i)
    } else {
        first_match_from(case, vs, input, i + 1)
    }
}

/// What parsing returns: the first matching variant in declaration order.
pub open spec fn spec_parse(c: LabeledCodec, input: Seq<char>) -> Option<int> {
    first_match_from(c.case, c.variants@, input, 0)
}

/// The message a decode error carries under each tier.
pub open spec fn spec_message(tier: ErrorTier, ident: Seq<char>, input: Seq<char>) -> Seq<char> {
    match tier {
        ErrorTier::NoAlloc => "invalid value"@,
        _ => "invalid "@ + ident + ": "@ + input,
    }
}

proof fn lemma_first_match_some(
    case: CasePolicy,
    vs: Seq<CodecVariant>,
    input: Seq<char>,
    i: int,
    found: int,
)
    requires
        0 <= i <= found < vs.len(),
        variant_matches(case, vs[found], input),
        forall|j: int| i <= j < found ==> !variant_matches(case, #[trigger] vs[j], input),
    ensures
        first_match_from(case, vs, input, i) == Some(found),
    decreases found - i,
{
    if i < found {
        lemma_first_match_some(case, vs, input, i + 1, found);
    }
}

proof fn lemma_first_match_none(case: CasePolicy, vs: Seq<CodecVariant>, input: Seq<char>, i: int)
    requires
        0 <= i <= vs.len(),
        forall|j: int| i <= j < vs.len() ==> !variant_matches(case, #[trigger] vs[j], input),
    ensures
        first_match_from(case, vs, input, i) is None,
    decreases vs.len() - i,
{
    if i < vs.len() {
        lemma_first_match_none(case, vs, input, i + 1);
    }
}

/// Whether `input` counts as equal to `candidate`, decided as the case
/// policy directs.
fn str_matches_exec(case: CasePolicy, input: &str, candidate: &str) -> (r: bool)
    ensures
        r == str_matches(case, input@, candidate@),
{
    match case {
        CasePolicy::CaseSensitive => str_eq(input, candidate),
        CasePolicy::CaseInsensitive => eq_case_insensitive(input, candidate),
    }
}

/// Tests the variant's canonical string first, then its aliases in
/// declaration order.
fn variant_matches_exec(case: CasePolicy, v: &CodecVariant, input: &str) -> (r: bool)
    ensures
        r == variant_matches(case, *v, input@),
{
    if str_matches_exec(case, input, v.string.as_str()) {
        return true;
    }
    let mut k: usize = 0;
    while k < v.aliases.len()
        invariant
            k <= v.aliases@.len(),
            forall|j: int| 0 <= j < k ==> !str_matches(case, input@, #[trigger] v.aliases@[j]@),
            !str_matches(case, input@, v.string@),
        decreases v.aliases@.len() - k,
    {
        if str_matches_exec(case, input, v.aliases[k].as_str()) {
            return true;
        }
        k += 1;
    }
    false
}

impl LabeledCodec {
    /// Rendering: the canonical string of the variant, verbatim.  Aliases
    /// are never produced.
    pub fn render(&self, v: usize) -> (r: String)
        requires
            v < self.variants@.len(),
        ensures
            r@ == self.variants@[v as int].string@,
    {
        self.variants[v].string.clone()
    }

    /// Parsing: the first variant in declaration order whose canonical
    /// string or alias the input matches; otherwise the invalid-value
    /// decode error, with the message the error tier allows.
    pub fn from_str(&self, s: &str) -> (r: Result<usize, DecodeError>)
        ensures
            match r {
                Ok(v) => spec_parse(*self, s@) == Some(v as int),
                Err(e) => {
                    &&& spec_parse(*self, s@) is None
                    &&& e matches DecodeError::InvalidValue { enum_name, input, message }
                    &&& enum_name@ == self.ident@
                    &&& input@ == s@
                    &&& message@ == spec_message(self.tier, self.ident@, s@)
                },
            },
    {
        let mut i: usize = 0;
        while i < self.variants.len()
            invariant
                i <= self.variants@.len(),
                forall|j: int|
                    0 <= j < i ==> !variant_matches(self.case, #[trigger] self.variants@[j], s@),
            decreases self.variants@.len() - i,
        {
            if variant_matches_exec(self.case, &self.variants[i], s) {
                proof {
                    lemma_first_match_some(self.case, self.variants@, s@, 0, i as int);
                }
                return Ok(i);
            }
            i += 1;
        }
        proof {
            lemma_first_match_none(self.case, self.variants@, s@, 0);
        }
        let message = match self.tier {
            ErrorTier::NoAlloc => String::from_str("invalid value"),
            _ => invalid_message(self.ident.as_str(), s),
        };
        Err(
            DecodeError::InvalidValue {
                enum_name: self.ident.clone(),
                input: String::from_str(s),
                message,
            },
        )
    }

    /// The description a deserializer hands to the framework's
    /// invalid-value error.
    pub fn expecting(&self) -> (r: String)
        ensures
            r@ == "a valid "@ + self.ident@ + " string value"@,
    {
        expecting_message(self.ident.as_str())
    }

    /// The deserializer adapter's visitor: parses a string token and
    /// re-raises a failure as the visitor protocol's invalid-value error.
    pub fn visit_str(&self, s: &str) -> (r: Result<usize, VisitError>)
        ensures
            match r {
                Ok(v) => spec_parse(*self, s@) == Some(v as int),
                Err(e) => {
                    &&& spec_parse(*self, s@) is None
                    &&& e.unexpected@ == s@
                    &&& e.expecting@ == "a valid "@ + self.ident@ + " string value"@
                },
            },
    {
        match self.from_str(s) {
            Ok(v) => Ok(v),
            Err(_) => Err(
                VisitError { unexpected: String::from_str(s), expecting: self.expecting() },
            ),
        }
    }

    /// Serializer adapter over a sequence: every variant rendered to its
    /// canonical string, in order.
    pub fn serialize_seq(&self, vs: &Vec<usize>) -> (r: Vec<String>)
        requires
            forall|n: int| 0 <= n < vs@.len() ==> (#[trigger] vs@[n]) < self.variants@.len(),
        ensures
            r@.len() == vs@.len(),
            forall|n: int|
                0 <= n < vs@.len() ==> (#[trigger] r@[n])@ == self.variants@[vs@[n] as int].string@,
    {
        let mut out: Vec<String> = Vec::new();
        let mut n: usize = 0;
        while n < vs.len()
            invariant
                forall|m: int| 0 <= m < vs@.len() ==> (#[trigger] vs@[m]) < self.variants@.len(),
                n <= vs@.len(),
                out@.len() == n,
                forall|m: int|
                    0 <= m < n ==> (#[trigger] out@[m])@ == self.variants@[vs@[m] as int].string@,
            decreases vs@.len() - n,
        {
            out.push(self.render(vs[n]));
            n += 1;
        }
        out
    }

    /// Deserializer adapter over a sequence: every string parsed in order;
    /// the first unrecognized string aborts everything with its decode
    /// error.
    pub fn deserialize_seq(&self, ss: &Vec<String>) -> (r: Result<Vec<usize>, DecodeError>)
        ensures
            match r {
                Ok(out) => out@.len() == ss@.len() && (forall|n: int|
                    0 <= n < ss@.len() ==> spec_parse(*self, ss@[n]@) == Some(
                        (#[trigger] out@[n]) as int,
                    )),
                Err(e) => exists|n: int|
                    {
                        &&& 0 <= n < ss@.len()
                        &&& (#[trigger] spec_parse(*self, ss@[n]@)) is None
                        &&& forall|m: int| 0 <= m < n ==> spec_parse(*self, ss@[m]@) is Some
                        &&& e matches DecodeError::InvalidValue { enum_name, input, message }
                        &&& enum_name@ == self.ident@
                        &&& input@ == ss@[n]@
                        &&& message@ == spec_message(self.tier, self.ident@, ss@[n]@)
                    },
            },
    {
        let mut out: Vec<usize> = Vec::new();
        let mut n: usize = 0;
        while n < ss.len()
            invariant
                n <= ss@.len(),
                out@.len() == n,
                forall|m: int|
                    0 <= m < n ==> spec_parse(*self, ss@[m]@) == Some((#[trigger] out@[m]) as int),
            decreases ss@.len() - n,
        {
            match self.from_str(ss[n].as_str()) {
                Ok(v) => {
                    out.push(v);
                },
                Err(e) => {
                    proof {
                        assert forall|m: int| 0 <= m < n implies spec_parse(*self, ss@[m]@) is Some by {
                            assert(spec_parse(*self, ss@[m]@) == Some(out@[m] as int));
                        }
                    }
                    return Err(e);
                },
            }
            n += 1;
        }
        Ok(out)
    }
}

/// Round trip: rendering a variant and parsing the result yields the
/// variant again, provided no earlier-declared variant also matches the
/// rendered string (with duplicated strings, the first declared owner
/// wins instead).
pub proof fn lemma_round_trip(c: LabeledCodec, v: int)
    requires
        0 <= v < c.variants@.len(),
        forall|j: int|
            0 <= j < v ==> !variant_matches(
                c.case,
                #[trigger] c.variants@[j],
                c.variants@[v].string@,
            ),
    ensures
        spec_parse(c, c.variants@[v].string@) == Some(v),
{
    assert(str_matches(c.case, c.variants@[v].string@, c.variants@[v].string@));
    lemma_first_match_some(c.case, c.variants@, c.variants@[v].string@, 0, v);
}

/// Canonical precedence: when an input matches both one variant's
/// canonical string and another variant's alias, and the canonical owner
/// is declared no later than the alias owner (and nothing declared still
/// earlier matches), the canonical owner wins.
pub proof fn lemma_canonical_precedence(c: LabeledCodec, s: Seq<char>, i: int, j: int, k: int)
    requires
        0 <= i <= j < c.variants@.len(),
        str_matches(c.case, s, c.variants@[i].string@),
        0 <= k < c.variants@[j].aliases@.len(),
        str_matches(c.case, s, c.variants@[j].aliases@[k]@),
        forall|l: int| 0 <= l < i ==> !variant_matches(c.case, #[trigger] c.variants@[l], s),
    ensures
        spec_parse(c, s) == Some(i),
{
    lemma_first_match_some(c.case, c.variants@, s, 0, i);
}

/// Alias resolution: a declared alias parses to the variant that owns it,
/// provided no earlier-declared variant also matches the alias.
pub proof fn lemma_alias_resolution(c: LabeledCodec, i: int, k: int)
    requires
        0 <= i < c.variants@.len(),
        0 <= k < c.variants@[i].aliases@.len(),
        forall|j: int|
            0 <= j < i ==> !variant_matches(
                c.case,
                #[trigger] c.variants@[j],
                c.variants@[i].aliases@[k]@,
            ),
    ensures
        spec_parse(c, c.variants@[i].aliases@[k]@) == Some(i),
{
    let s = c.variants@[i].aliases@[k]@;
    assert(str_matches(c.case, s, c.variants@[i].aliases@[k]@));
    assert(variant_matches(c.case, c.variants@[i], s));
    lemma_first_match_some(c.case, c.variants@, s, 0, i);
}

/// Case policy, insensitive half: under `CaseInsensitive`, any input that
/// case-folds like a variant's canonical string or like one of its
/// aliases parses to that variant, provided no earlier-declared variant
/// also matches the input.
pub proof fn lemma_case_insensitive_parse(c: LabeledCodec, s: Seq<char>, i: int)
    requires
        c.case is CaseInsensitive,
        0 <= i < c.variants@.len(),
        case_fold(s) == case_fold(c.variants@[i].string@) || (exists|k: int|
            0 <= k < c.variants@[i].aliases@.len() && case_fold(s) == case_fold(
                #[trigger] c.variants@[i].aliases@[k]@,
            )),
        forall|j: int| 0 <= j < i ==> !variant_matches(c.case, #[trigger] c.variants@[j], s),
    ensures
        spec_parse(c, s) == Some(i),
{
    assert(variant_matches(c.case, c.variants@[i], s));
    lemma_first_match_some(c.case, c.variants@, s, 0, i);
}

/// Case policy, sensitive half: under `CaseSensitive`, an input that
/// differs byte-for-byte from every canonical string and every alias
/// fails, however it case-folds.
pub proof fn lemma_case_sensitive_rejects(c: LabeledCodec, s: Seq<char>)
    requires
        c.case is CaseSensitive,
        forall|j: int| 0 <= j < c.variants@.len() ==> s != (#[trigger] c.variants@[j]).string@,
        forall|j: int, k: int|
            0 <= j < c.variants@.len() && 0 <= k < c.variants@[j].aliases@.len() ==> s != (
            #[trigger] c.variants@[j].aliases@[k]@),
    ensures
        spec_parse(c, s) is None,
{
    assert forall|j: int|
        0 <= j < c.variants@.len() implies !variant_matches(
        c.case,
        #[trigger] c.variants@[j],
        s,
    ) by {
        assert(s != c.variants@[j].string@);
        assert forall|k: int|
            0 <= k < c.variants@[j].aliases@.len() implies !str_matches(
            c.case,
            s,
            #[trigger] c.variants@[j].aliases@[k]@,
        ) by {
            assert(s != c.variants@[j].aliases@[k]@);
        }
    }
    lemma_first_match_none(c.case, c.variants@, s, 0);
}

/// Collection round trip: rendering a sequence of variants and parsing
/// the rendered strings reproduces the variants, in order, provided each
/// rendered string matches no variant declared earlier than its owner.
pub proof fn lemma_collection_round_trip(c: LabeledCodec, vs: Seq<int>, ss: Seq<Seq<char>>)
    requires
        ss.len() == vs.len(),
        forall|n: int| 0 <= n < vs.len() ==> 0 <= #[trigger] vs[n] < c.variants@.len(),
        forall|n: int| 0 <= n < vs.len() ==> #[trigger] ss[n] == c.variants@[vs[n]].string@,
        forall|n: int|
            0 <= n < vs.len() ==> (forall|j: int|
                0 <= j < vs[n] ==> !variant_matches(
                    c.case,
                    #[trigger] c.variants@[j],
                    #[trigger] ss[n],
                )),
    ensures
        forall|n: int| 0 <= n < vs.len() ==> #[trigger] spec_parse(c, ss[n]) == Some(vs[n]),
{
    assert forall|n: int| 0 <= n < vs.len() implies #[trigger] spec_parse(c, ss[n]) == Some(
        vs[n],
    ) by {
        lemma_round_trip(c, vs[n]);
    }
}

/// `cv` is the table entry made from the validated variant `v`.
pub open spec fn entry_of_variant(cv: CodecVariant, v: Variant) -> bool {
    &&& cv.ident@ == v.ident@
    &&& v.attrs.model().string == Some(cv.string@)
    &&& cv.aliases@.map_values(|a: String| a@) == v.attrs.model().aliases
}

/// The generated table reflects the validated input, entry by entry.
pub open spec fn codec_of_input(c: LabeledCodec, lsi: LabeledStringInput) -> bool {
    &&& c.ident@ == lsi.ident@
    &&& c.variants@.len() == lsi.variants@.len()
    &&& forall|i: int|
        0 <= i < lsi.variants@.len() ==> entry_of_variant(
            #[trigger] c.variants@[i],
            lsi.variants@[i],
        )
}

/// One table entry of the generated codec: the variant's name, its
/// canonical string, and its aliases, as declared.
pub open spec fn codec_variant_models(cv: CodecVariant, rv: RawVariant) -> bool {
    &&& cv.ident@ == rv.ident@
    &&& spec_attrs(rv.attrs@) matches Ok(m) && m.string == Some(cv.string@) && m.aliases
        == cv.aliases@.map_values(|a: String| a@)
}

/// The generated codec reflects the declaration: same name, one table
/// entry per declared variant, in declaration order.
pub open spec fn codec_models(c: LabeledCodec, decl: RawDecl) -> bool {
    &&& c.ident@ == decl.ident@
    &&& c.variants@.len() == decl.variants@.len()
    &&& forall|i: int|
        0 <= i < decl.variants@.len() ==> codec_variant_models(
            #[trigger] c.variants@[i],
            decl.variants@[i],
        )
}

/// An element-wise copy of a vector of strings.
fn clone_strings(v: &Vec<String>) -> (r: Vec<String>)
    ensures
        r@ == v@,
{
    let r = v.clone();
    proof {
        assert forall|i: int| 0 <= i < v@.len() implies r@[i] == v@[i] by {
            assert(cloned::<String>(v@[i], r@[i]));
        }
        assert(r@ =~= v@);
    }
    r
}

/// Builds the codec table from a validated labeled input.
pub(crate) fn build_labeled(lsi: &LabeledStringInput, case: CasePolicy, tier: ErrorTier) -> (c:
    LabeledCodec)
    requires
        forall|i: int|
            0 <= i < lsi.variants@.len() ==> (#[trigger] lsi.variants@[i]).attrs.string is Some,
    ensures
        codec_of_input(c, *lsi),
        c.case == case,
        c.tier == tier,
{
    let mut entries: Vec<CodecVariant> = Vec::new();
    let mut i: usize = 0;
    while i < lsi.variants.len()
        invariant
            forall|j: int|
                0 <= j < lsi.variants@.len() ==> (#[trigger] lsi.variants@[j]).attrs.string
                    is Some,
            i <= lsi.variants@.len(),
            entries@.len() == i,
            forall|j: int|
                0 <= j < i ==> entry_of_variant(#[trigger] entries@[j], lsi.variants@[j]),
        decreases lsi.variants@.len() - i,
    {
        let v = &lsi.variants[i];
        let string = v.attrs.string.as_ref().unwrap().clone();
        let aliases = clone_strings(&v.attrs.aliases);
        entries.push(CodecVariant { ident: v.ident.clone(), string, aliases });
        i += 1;
    }
    LabeledCodec { ident: lsi.ident.clone(), variants: entries, case, tier }
}

/// The caller-supplied string conversion that custom mode wraps: a
/// rendering function and its inverse parse.
pub trait StringCodec: Sized {
    fn render_string(&self) -> String;

    fn parse_string(s: &str) -> Result<Self, String>;
}

/// The serializer adapter of custom mode: renders through the
/// caller-supplied pair and hands the string to the framework.  Rendering
/// has no error path.
#[derive(Debug)]
pub struct CustomSerializer {
    pub ident: String,
}

impl CustomSerializer {
    /// Exactly what the caller-supplied rendering produced for this
    /// value, handed on unchanged: the result is a possible output of the
    /// value's own `render_string`, so a string made up here could not
    /// verify.
    pub fn serialize<T: StringCodec>(&self, value: &T) -> (r: String)
        ensures
            call_ensures(T::render_string, (value,), r),
    {
        value.render_string()
    }
}

/// The deserializer adapter of custom mode: wraps the caller-supplied
/// parse only to translate its failure into the visitor protocol's
/// invalid-value error.
#[derive(Debug)]
pub struct CustomDeserializer {
    pub ident: String,
}

impl CustomDeserializer {
    /// The description a deserializer hands to the framework's
    /// invalid-value error.
    pub fn expecting(&self) -> (r: String)
        ensures
            r@ == "a valid "@ + self.ident@ + " string value"@,
    {
        expecting_message(self.ident.as_str())
    }

    /// The verdict of the caller-supplied parse, translated: a success is
    /// handed through untouched, a failure becomes the invalid-value
    /// error carrying the original input and the expecting description.
    pub fn translate<T>(&self, s: &str, parsed: Result<T, String>) -> (r: Result<T, VisitError>)
        ensures
            match r {
                Ok(v) => parsed matches Ok(p) && v == p,
                Err(e) => {
                    &&& parsed is Err
                    &&& e.unexpected@ == s@
                    &&& e.expecting@ == "a valid "@ + self.ident@ + " string value"@
                },
            },
    {
        match parsed {
            Ok(v) => Ok(v),
            Err(_) => Err(
                VisitError { unexpected: String::from_str(s), expecting: self.expecting() },
            ),
        }
    }

    /// The deserializer adapter's visitor: runs the caller-supplied parse
    /// on the string token and translates its verdict.  A success is what
    /// the caller's own `parse_string` returned for this input, handed
    /// through unchanged; a failure happens only where the caller's parse
    /// failed, and surfaces as the invalid-value error carrying the
    /// original input and the expecting description.
    pub fn visit_str<T: StringCodec>(&self, s: &str) -> (r: Result<T, VisitError>)
        ensures
            r matches Ok(v) ==> call_ensures(T::parse_string, (s,), Ok::<T, String>(v)),
            r matches Err(e) ==> {
                &&& exists|m: String| call_ensures(T::parse_string, (s,), Err::<T, String>(m))
                &&& e.unexpected@ == s@
                &&& e.expecting@ == "a valid "@ + self.ident@ + " string value"@
            },
    {
        let parsed = T::parse_string(s);
        proof {
            if parsed is Err {
                let m = parsed->Err_0;
                assert(call_ensures(T::parse_string, (s,), Err::<T, String>(m)));
            }
        }
        self.translate(s, parsed)
    }
}

} // verus!
