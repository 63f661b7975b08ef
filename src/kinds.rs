//! The pattern kinds that can be carried: text and byte regular expressions
//! and their sets. Each kind is seen through its source text alone.
use vstd::prelude::*;

verus! {

#[verifier::external_type_specification]
#[verifier::external_body]
pub struct ExRegex(regex::Regex);

#[verifier::external_type_specification]
#[verifier::external_body]
pub struct ExBytesRegex(regex::bytes::Regex);

#[verifier::external_type_specification]
#[verifier::external_body]
pub struct ExRegexSet(regex::RegexSet);

#[verifier::external_type_specification]
#[verifier::external_body]
pub struct ExBytesRegexSet(regex::bytes::RegexSet);

#[verifier::external_type_specification]
#[verifier::external_body]
pub struct ExRegexError(regex::Error);

/// Whether `regex::Regex::new` accepts the given source text.
pub uninterp spec fn text_regex_accepts(source: Seq<char>) -> bool;

/// The error `regex::Regex::new` returns for the given source text, when it fails.
pub uninterp spec fn text_regex_error(source: Seq<char>) -> regex::Error;

/// What `regex::Regex::as_str` returns for a compiled expression.
pub uninterp spec fn text_regex_source(re: regex::Regex) -> Seq<char>;

/// Whether `regex::bytes::Regex::new` accepts the given source text.
pub uninterp spec fn bytes_regex_accepts(source: Seq<char>) -> bool;

/// The error `regex::bytes::Regex::new` returns for the given source text, when it fails.
pub uninterp spec fn bytes_regex_error(source: Seq<char>) -> regex::Error;

/// What `regex::bytes::Regex::as_str` returns for a compiled expression.
pub uninterp spec fn bytes_regex_source(re: regex::bytes::Regex) -> Seq<char>;

/// Whether `regex::RegexSet::new` accepts the given member texts.
pub uninterp spec fn text_set_accepts(sources: Seq<Seq<char>>) -> bool;

/// The error `regex::RegexSet::new` returns for the given member texts, when it fails.
pub uninterp spec fn text_set_error(sources: Seq<Seq<char>>) -> regex::Error;

/// What `regex::RegexSet::patterns` returns for a compiled set.
pub uninterp spec fn text_set_patterns(set: regex::RegexSet) -> Seq<Seq<char>>;

/// Whether `regex::bytes::RegexSet::new` accepts the given member texts.
pub uninterp spec fn bytes_set_accepts(sources: Seq<Seq<char>>) -> bool;

/// The error `regex::bytes::RegexSet::new` returns for the given member texts, when it fails.
pub uninterp spec fn bytes_set_error(sources: Seq<Seq<char>>) -> regex::Error;

/// What `regex::bytes::RegexSet::patterns` returns for a compiled set.
pub uninterp spec fn bytes_set_patterns(set: regex::bytes::RegexSet) -> Seq<Seq<char>>;

/// The texts of a sequence of strings.
pub open spec fn texts_of(strings: Seq<String>) -> Seq<Seq<char>> {
    strings.map_values(|s: String| s@)
}

/// Relies on `regex::Regex::new`: it fails exactly on the texts it does not
/// accept, with an error that depends on the text alone, and a compiled
/// expression keeps its source text verbatim.
#[verifier::external_body]
fn compile_text_regex(source: &str) -> (r: Result<regex::Regex, regex::Error>)
    ensures
        r is Ok <==> text_regex_accepts(source@),
        r matches Ok(re) ==> text_regex_source(re) == source@,
        r matches Err(e) ==> e == text_regex_error(source@),
{
    regex::Regex::new(source)
}

/// Relies on `regex::Regex::as_str`: the original string of the expression.
#[verifier::external_body]
fn text_regex_as_str(re: &regex::Regex) -> (r: &str)
    ensures
        r@ == text_regex_source(*re),
{
    re.as_str()
}

/// Relies on `regex::bytes::Regex::new`: it fails exactly on the texts it
/// does not accept, with an error that depends on the text alone, and a
/// compiled expression keeps its source text verbatim.
#[verifier::external_body]
fn compile_bytes_regex(source: &str) -> (r: Result<regex::bytes::Regex, regex::Error>)
    ensures
        r is Ok <==> bytes_regex_accepts(source@),
        r matches Ok(re) ==> bytes_regex_source(re) == source@,
        r matches Err(e) ==> e == bytes_regex_error(source@),
{
    regex::bytes::Regex::new(source)
}

/// Relies on `regex::bytes::Regex::as_str`: the original string of the
/// expression.
#[verifier::external_body]
fn bytes_regex_as_str(re: &regex::bytes::Regex) -> (r: &str)
    ensures
        r@ == bytes_regex_source(*re),
{
    re.as_str()
}

/// Relies on `regex::RegexSet::new`: it fails exactly on the lists it does
/// not accept, with an error that depends on the texts alone, and a compiled
/// set keeps its member texts verbatim and in order.
#[verifier::external_body]
fn compile_text_set(sources: &Vec<String>) -> (r: Result<regex::RegexSet, regex::Error>)
    ensures
        r is Ok <==> text_set_accepts(texts_of(sources@)),
        r matches Ok(set) ==> text_set_patterns(set) == texts_of(sources@),
        r matches Err(e) ==> e == text_set_error(texts_of(sources@)),
{
    regex::RegexSet::new(sources)
}

/// Relies on `regex::RegexSet::patterns`: the member texts the set was built
/// from, in their original order.
#[verifier::external_body]
fn text_set_members(set: &regex::RegexSet) -> (r: &[String])
    ensures
        texts_of(r@) == text_set_patterns(*set),
{
    set.patterns()
}

/// Relies on `regex::bytes::RegexSet::new`: it fails exactly on the lists it
/// does not accept, with an error that depends on the texts alone, and a
/// compiled set keeps its member texts verbatim and in order.
#[verifier::external_body]
fn compile_bytes_set(sources: &Vec<String>) -> (r: Result<regex::bytes::RegexSet, regex::Error>)
    ensures
        r is Ok <==> bytes_set_accepts(texts_of(sources@)),
        r matches Ok(set) ==> bytes_set_patterns(set) == texts_of(sources@),
        r matches Err(e) ==> e == bytes_set_error(texts_of(sources@)),
{
    regex::bytes::RegexSet::new(sources)
}

/// Relies on `regex::bytes::RegexSet::patterns`: the member texts the set was
/// built from, in their original order.
#[verifier::external_body]
fn bytes_set_members(set: &regex::bytes::RegexSet) -> (r: &[String])
    ensures
        texts_of(r@) == bytes_set_patterns(*set),
{
    set.patterns()
}

/// A compiled single-pattern kind, seen through its source text.
pub trait Pattern: Sized {
    /// Whether `source` compiles to a pattern of this kind.
    spec fn accepts(source: Seq<char>) -> bool;

    /// The compiler's error for a `source` that does not compile.
    spec fn error_of(source: Seq<char>) -> regex::Error;

    /// The source text the pattern was compiled from.
    spec fn source(&self) -> Seq<char>;

    /// Compiles `source`; the error carries the compiler's diagnostic.
    fn compile(source: &str) -> (r: Result<Self, regex::Error>)
        ensures
            r is Ok <==> Self::accepts(source@),
            r matches Ok(p) ==> p.source() == source@,
            r matches Err(e) ==> e == Self::error_of(source@),
    ;

    /// The source text of the pattern.
    fn source_text(&self) -> (r: &str)
        ensures
            r@ == self.source(),
    ;
}

/// A compiled set of patterns matched jointly, seen through its ordered
/// member texts.
pub trait PatternSet: Sized {
    /// Whether the member texts compile to a set of this kind.
    spec fn accepts(sources: Seq<Seq<char>>) -> bool;

    /// The engine's error for member texts that do not build a set.
    spec fn error_of(sources: Seq<Seq<char>>) -> regex::Error;

    /// The member texts the set was built from, in order.
    spec fn members(&self) -> Seq<Seq<char>>;

    /// Builds a set from all member texts in one call.
    fn compile(sources: &Vec<String>) -> (r: Result<Self, regex::Error>)
        ensures
            r is Ok <==> Self::accepts(texts_of(sources@)),
            r matches Ok(set) ==> set.members() == texts_of(sources@),
            r matches Err(e) ==> e == Self::error_of(texts_of(sources@)),
    ;

    /// The member texts of the set, in order.
    fn member_texts(&self) -> (r: &[String])
        ensures
            texts_of(r@) == self.members(),
    ;
}

impl Pattern for regex::Regex {
    open spec fn accepts(source: Seq<char>) -> bool {
        text_regex_accepts(source)
    }

    open spec fn error_of(source: Seq<char>) -> regex::Error {
        text_regex_error(source)
    }

    open spec fn source(&self) -> Seq<char> {
        text_regex_source(*self)
    }

    fn compile(source: &str) -> (r: Result<Self, regex::Error>) {
        compile_text_regex(source)
    }

    fn source_text(&self) -> (r: &str) {
        text_regex_as_str(self)
    }
}

impl Pattern for regex::bytes::Regex {
    open spec fn accepts(source: Seq<char>) -> bool {
        bytes_regex_accepts(source)
    }

    open spec fn error_of(source: Seq<char>) -> regex::Error {
        bytes_regex_error(source)
    }

    open spec fn source(&self) -> Seq<char> {
        bytes_regex_source(*self)
    }

    fn compile(source: &str) -> (r: Result<Self, regex::Error>) {
        compile_bytes_regex(source)
    }

    fn source_text(&self) -> (r: &str) {
        bytes_regex_as_str(self)
    }
}

impl PatternSet for regex::RegexSet {
    open spec fn accepts(sources: Seq<Seq<char>>) -> bool {
        text_set_accepts(sources)
    }

    open spec fn error_of(sources: Seq<Seq<char>>) -> regex::Error {
        text_set_error(sources)
    }

    open spec fn members(&self) -> Seq<Seq<char>> {
        text_set_patterns(*self)
    }

    fn compile(sources: &Vec<String>) -> (r: Result<Self, regex::Error>) {
        compile_text_set(sources)
    }

    fn member_texts(&self) -> (r: &[String]) {
        text_set_members(self)
    }
}

impl PatternSet for regex::bytes::RegexSet {
    open spec fn accepts(sources: Seq<Seq<char>>) -> bool {
        bytes_set_accepts(sources)
    }

    open spec fn error_of(sources: Seq<Seq<char>>) -> regex::Error {
        bytes_set_error(sources)
    }

    open spec fn members(&self) -> Seq<Seq<char>> {
        bytes_set_patterns(*self)
    }

    fn compile(sources: &Vec<String>) -> (r: Result<Self, regex::Error>) {
        compile_bytes_set(sources)
    }

    fn member_texts(&self) -> (r: &[String]) {
        bytes_set_members(self)
    }
}

} // verus!
