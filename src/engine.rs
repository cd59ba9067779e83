use vstd::prelude::*;
use crate::features::Feature;
use crate::value::views_of;

verus! {

#[verifier::external_type_specification]
#[verifier::external_body]
pub struct ExRegExpBuilder(grex::RegExpBuilder);

/// The configuration that a grex builder holds, one field for each of its
/// settings that this library can change.
pub struct Settings {
    pub digits: bool,
    pub non_digits: bool,
    pub space: bool,
    pub non_space: bool,
    pub words: bool,
    pub non_words: bool,
    pub repetitions: bool,
    pub case_insensitive: bool,
    pub capturing_groups: bool,
    pub syntax_highlighting: bool,
    pub minimum_repetitions: u32,
    pub escaped_non_ascii: bool,
    pub surrogate_pairs: bool,
    pub minimum_substring_length: u32,
}

/// The configuration of a freshly made builder.
pub open spec fn initial_settings() -> Settings {
    Settings {
        digits: false,
        non_digits: false,
        space: false,
        non_space: false,
        words: false,
        non_words: false,
        repetitions: false,
        case_insensitive: false,
        capturing_groups: false,
        syntax_highlighting: false,
        minimum_repetitions: 1,
        escaped_non_ascii: false,
        surrogate_pairs: false,
        minimum_substring_length: 1,
    }
}

/// The configuration after the engine is allowed to use one more feature.
pub open spec fn enable_spec(s: Settings, f: Feature) -> Settings {
    match f {
        Feature::Digit => Settings { digits: true, ..s },
        Feature::NonDigit => Settings { non_digits: true, ..s },
        Feature::Space => Settings { space: true, ..s },
        Feature::NonSpace => Settings { non_space: true, ..s },
        Feature::Word => Settings { words: true, ..s },
        Feature::NonWord => Settings { non_words: true, ..s },
        Feature::Repetition => Settings { repetitions: true, ..s },
        Feature::CaseInsensitivity => Settings { case_insensitive: true, ..s },
        Feature::CapturingGroup => Settings { capturing_groups: true, ..s },
    }
}

/// A grex builder together with a model of what it holds. The builder is
/// private to this module, and the model follows each change that the
/// functions below make to it.
pub struct Engine {
    builder: grex::RegExpBuilder,
    cases: Ghost<Seq<Seq<char>>>,
    settings: Ghost<Settings>,
}

impl Engine {
    /// The test cases the builder was made from, in the order given.
    pub closed spec fn cases(&self) -> Seq<Seq<char>> {
        self.cases@
    }

    /// The configuration the builder holds.
    pub closed spec fn settings(&self) -> Settings {
        self.settings@
    }
}

/// Relies on `grex::RegExpBuilder::from`: the builder holds the test cases
/// and grex's default configuration. It panics on an empty slice.
#[verifier::external_body]
fn engine_from(cases: &Vec<String>) -> (e: Engine)
    requires
        cases.len() > 0,
    ensures
        e.cases() == views_of(cases@),
        e.settings() == initial_settings(),
{
    Engine {
        builder: grex::RegExpBuilder::from(cases),
        cases: Ghost(views_of(cases@)),
        settings: Ghost(initial_settings()),
    }
}

/// Holds when `pattern` is one of the patterns that grex may synthesize
/// from the test cases under the configuration. It is a relation, not a
/// function: grex picks among equivalent automaton states by walking a hash
/// set, so the order of alternatives may differ from one process to the next.
pub uninterp spec fn grex_may_build(cases: Seq<Seq<char>>, settings: Settings, pattern: Seq<char>) -> bool;

/// Relies on `grex::RegExpBuilder::build`: the pattern it returns is one that
/// grex synthesizes from the builder's test cases and configuration. The
/// builder is used up afterwards.
#[verifier::external_body]
fn engine_build(e: &mut Engine) -> (r: String)
    ensures
        grex_may_build(old(e).cases(), old(e).settings(), r@),
{
    e.builder.build()
}

/// Relies on `grex::RegExpBuilder::with_conversion_of_digits`: it sets one flag of the
/// configuration (the engine then converts digits to `\\d`).
#[verifier::external_body]
fn engine_conversion_of_digits(e: &mut Engine)
    ensures
        final(e).cases() == old(e).cases(),
        final(e).settings() == (Settings { digits: true, ..old(e).settings() }),
{
    e.builder.with_conversion_of_digits();
}

/// Relies on `grex::RegExpBuilder::with_conversion_of_non_digits`: it sets one flag of the
/// configuration (the engine then converts non-digits to `\\D`).
#[verifier::external_body]
fn engine_conversion_of_non_digits(e: &mut Engine)
    ensures
        final(e).cases() == old(e).cases(),
        final(e).settings() == (Settings { non_digits: true, ..old(e).settings() }),
{
    e.builder.with_conversion_of_non_digits();
}

/// Relies on `grex::RegExpBuilder::with_conversion_of_whitespace`: it sets one flag of the
/// configuration (the engine then converts whitespace to `\\s`).
#[verifier::external_body]
fn engine_conversion_of_whitespace(e: &mut Engine)
    ensures
        final(e).cases() == old(e).cases(),
        final(e).settings() == (Settings { space: true, ..old(e).settings() }),
{
    e.builder.with_conversion_of_whitespace();
}

/// Relies on `grex::RegExpBuilder::with_conversion_of_non_whitespace`: it sets one flag of the
/// configuration (the engine then converts non-whitespace to `\\S`).
#[verifier::external_body]
fn engine_conversion_of_non_whitespace(e: &mut Engine)
    ensures
        final(e).cases() == old(e).cases(),
        final(e).settings() == (Settings { non_space: true, ..old(e).settings() }),
{
    e.builder.with_conversion_of_non_whitespace();
}

/// Relies on `grex::RegExpBuilder::with_conversion_of_words`: it sets one flag of the
/// configuration (the engine then converts word characters to `\\w`).
#[verifier::external_body]
fn engine_conversion_of_words(e: &mut Engine)
    ensures
        final(e).cases() == old(e).cases(),
        final(e).settings() == (Settings { words: true, ..old(e).settings() }),
{
    e.builder.with_conversion_of_words();
}

/// Relies on `grex::RegExpBuilder::with_conversion_of_non_words`: it sets one flag of the
/// configuration (the engine then converts non-word characters to `\\W`).
#[verifier::external_body]
fn engine_conversion_of_non_words(e: &mut Engine)
    ensures
        final(e).cases() == old(e).cases(),
        final(e).settings() == (Settings { non_words: true, ..old(e).settings() }),
{
    e.builder.with_conversion_of_non_words();
}

/// Relies on `grex::RegExpBuilder::with_conversion_of_repetitions`: it sets one flag of the
/// configuration (the engine then detects repeated substrings).
#[verifier::external_body]
fn engine_conversion_of_repetitions(e: &mut Engine)
    ensures
        final(e).cases() == old(e).cases(),
        final(e).settings() == (Settings { repetitions: true, ..old(e).settings() }),
{
    e.builder.with_conversion_of_repetitions();
}

/// Relies on `grex::RegExpBuilder::with_case_insensitive_matching`: it sets one flag of the
/// configuration (the engine then matches without regard to case).
#[verifier::external_body]
fn engine_case_insensitive_matching(e: &mut Engine)
    ensures
        final(e).cases() == old(e).cases(),
        final(e).settings() == (Settings { case_insensitive: true, ..old(e).settings() }),
{
    e.builder.with_case_insensitive_matching();
}

/// Relies on `grex::RegExpBuilder::with_capturing_groups`: it sets one flag of the
/// configuration (the engine then uses capturing groups).
#[verifier::external_body]
fn engine_capturing_groups(e: &mut Engine)
    ensures
        final(e).cases() == old(e).cases(),
        final(e).settings() == (Settings { capturing_groups: true, ..old(e).settings() }),
{
    e.builder.with_capturing_groups();
}

/// Relies on `grex::RegExpBuilder::with_syntax_highlighting`: it sets one
/// flag of the configuration.
#[verifier::external_body]
fn engine_syntax_highlighting(e: &mut Engine)
    ensures
        final(e).cases() == old(e).cases(),
        final(e).settings() == (Settings { syntax_highlighting: true, ..old(e).settings() }),
{
    e.builder.with_syntax_highlighting();
}

/// Relies on `grex::RegExpBuilder::with_minimum_repetitions`: it stores the
/// quantity. It panics on zero.
#[verifier::external_body]
fn engine_minimum_repetitions(e: &mut Engine, quantity: u32)
    requires
        quantity > 0,
    ensures
        final(e).cases() == old(e).cases(),
        final(e).settings() == (Settings { minimum_repetitions: quantity, ..old(e).settings() }),
{
    e.builder.with_minimum_repetitions(quantity);
}

/// Relies on `grex::RegExpBuilder::with_escaping_of_non_ascii_chars`: it
/// turns escaping on and stores the surrogate pair choice.
#[verifier::external_body]
fn engine_escaping_of_non_ascii_chars(e: &mut Engine, use_surrogate_pairs: bool)
    ensures
        final(e).cases() == old(e).cases(),
        final(e).settings() == (Settings {
            escaped_non_ascii: true,
            surrogate_pairs: use_surrogate_pairs,
            ..old(e).settings()
        }),
{
    e.builder.with_escaping_of_non_ascii_chars(use_surrogate_pairs);
}

/// Relies on `grex::RegExpBuilder::with_minimum_substring_length`: it stores
/// the length. It panics on zero.
#[verifier::external_body]
fn engine_minimum_substring_length(e: &mut Engine, length: u32)
    requires
        length > 0,
    ensures
        final(e).cases() == old(e).cases(),
        final(e).settings() == (Settings { minimum_substring_length: length, ..old(e).settings() }),
{
    e.builder.with_minimum_substring_length(length);
}

impl Engine {
    /// Starts a builder from a non-empty list of test cases.
    pub fn new(cases: &Vec<String>) -> (e: Engine)
        requires
            cases.len() > 0,
        ensures
            e.cases() == views_of(cases@),
            e.settings() == initial_settings(),
    {
        engine_from(cases)
    }

    /// Allows the engine to use one more feature.
    pub fn enable(&mut self, f: Feature)
        ensures
            final(self).cases() == old(self).cases(),
            final(self).settings() == enable_spec(old(self).settings(), f),
    {
        match f {
            Feature::Digit => engine_conversion_of_digits(self),
            Feature::NonDigit => engine_conversion_of_non_digits(self),
            Feature::Space => engine_conversion_of_whitespace(self),
            Feature::NonSpace => engine_conversion_of_non_whitespace(self),
            Feature::Word => engine_conversion_of_words(self),
            Feature::NonWord => engine_conversion_of_non_words(self),
            Feature::Repetition => engine_conversion_of_repetitions(self),
            Feature::CaseInsensitivity => engine_case_insensitive_matching(self),
            Feature::CapturingGroup => engine_capturing_groups(self),
        }
    }

    /// Allows the engine to use each of the features, in order.
    pub fn enable_all(&mut self, fs: &Vec<Feature>)
        ensures
            final(self).cases() == old(self).cases(),
            final(self).settings() == enable_all_spec(old(self).settings(), fs@),
    {
        let mut i: usize = 0;
        reveal(enable_all_spec);
        while i < fs.len()
            invariant
                i <= fs.len(),
                self.cases() == old(self).cases(),
                self.settings() == enable_all_spec(old(self).settings(), fs@.subrange(0, i as int)),
            decreases fs.len() - i,
        {
            assert(fs@.subrange(0, i + 1).drop_last() =~= fs@.subrange(0, i as int));
            reveal(enable_all_spec);
            self.enable(fs[i]);
            i = i + 1;
        }
        assert(fs@.subrange(0, fs.len() as int) =~= fs@);
    }

    /// Turns on syntax highlighting of the pattern.
    pub fn highlight_syntax(&mut self)
        ensures
            final(self).cases() == old(self).cases(),
            final(self).settings() == (Settings { syntax_highlighting: true, ..old(self).settings() }),
    {
        engine_syntax_highlighting(self)
    }

    /// Sets how often a substring must repeat before it is folded.
    pub fn set_minimum_repetitions(&mut self, quantity: u32)
        requires
            quantity > 0,
        ensures
            final(self).cases() == old(self).cases(),
            final(self).settings() == (Settings { minimum_repetitions: quantity, ..old(self).settings() }),
    {
        engine_minimum_repetitions(self, quantity)
    }

    /// Escapes non-ASCII characters, as surrogate pairs above the basic plane
    /// if asked to.
    pub fn escape_non_ascii(&mut self, use_surrogate_pairs: bool)
        ensures
            final(self).cases() == old(self).cases(),
            final(self).settings() == (Settings {
                escaped_non_ascii: true,
                surrogate_pairs: use_surrogate_pairs,
                ..old(self).settings()
            }),
    {
        engine_escaping_of_non_ascii_chars(self, use_surrogate_pairs)
    }

    /// Sets how long a repeated substring must be before it is folded.
    pub fn set_minimum_substring_length(&mut self, length: u32)
        requires
            length > 0,
        ensures
            final(self).cases() == old(self).cases(),
            final(self).settings() == (Settings { minimum_substring_length: length, ..old(self).settings() }),
    {
        engine_minimum_substring_length(self, length)
    }

    /// Synthesizes the pattern from the test cases and configuration held,
    /// using up the builder.
    pub fn build(self) -> (r: String)
        ensures
            grex_may_build(self.cases(), self.settings(), r@),
    {
        let mut e = self;
        engine_build(&mut e)
    }
}

/// The configuration after the engine is allowed each of the features in turn.
#[verifier::opaque]
pub open spec fn enable_all_spec(s: Settings, fs: Seq<Feature>) -> Settings
    decreases fs.len(),
{
    if fs.len() == 0 {
        s
    } else {
        enable_spec(enable_all_spec(s, fs.drop_last()), fs.last())
    }
}

} // verus!
