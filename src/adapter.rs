use vstd::prelude::*;
use crate::engine::{Engine, Settings, enable_all_spec, grex_may_build, initial_settings};
use crate::error::BuildError;
use crate::features::Feature;
use crate::examples::{example_set, normalize_examples};
use crate::options::{Options, OptionsModel, decode_options, decode_spec};
use crate::value::{Value, all_strings, views_of};

verus! {

/// The capability step: each listed feature is allowed, if a list was given.
pub open spec fn conversion_step(s: Settings, fs: Option<Seq<Feature>>) -> Settings {
    match fs {
        Some(fs) => enable_all_spec(s, fs),
        None => s,
    }
}

/// The highlighting step: it turns highlighting on only when asked to.
pub open spec fn highlighting_step(s: Settings, on: Option<bool>) -> Settings {
    if on == Some(true) {
        Settings { syntax_highlighting: true, ..s }
    } else {
        s
    }
}

/// The minimum repetition step.
pub open spec fn repetitions_step(s: Settings, n: Option<u32>) -> Settings {
    match n {
        Some(n) => Settings { minimum_repetitions: n, ..s },
        None => s,
    }
}

/// The escaping step: only when escaping is asked for does it act, and then
/// it passes the surrogate pair choice, false unless set.
pub open spec fn escaping_step(s: Settings, on: Option<bool>, surrogate_pairs: Option<bool>) -> Settings {
    if on == Some(true) {
        Settings { escaped_non_ascii: true, surrogate_pairs: surrogate_pairs == Some(true), ..s }
    } else {
        s
    }
}

/// The minimum substring length step.
pub open spec fn substring_step(s: Settings, n: Option<u32>) -> Settings {
    match n {
        Some(n) => Settings { minimum_substring_length: n, ..s },
        None => s,
    }
}

/// The configuration after the options are applied, in this order: the
/// capability set, syntax highlighting, the minimum repetition count, the
/// escaping of non-ASCII characters, the minimum substring length.
pub open spec fn apply_options(s: Settings, o: OptionsModel) -> Settings {
    substring_step(
        escaping_step(
            repetitions_step(
                highlighting_step(conversion_step(s, o.conversion_of), o.syntax_highlighting),
                o.minimum_repetitions,
            ),
            o.escaped_non_ascii_chars,
            o.surrogate_pairs,
        ),
        o.minimum_substring_length,
    )
}

/// The options that the engine would refuse: a count set to zero.
pub open spec fn options_error(o: OptionsModel) -> Option<BuildError> {
    if o.minimum_repetitions == Some(0u32) {
        Some(BuildError::ZeroMinimumRepetitions)
    } else if o.minimum_substring_length == Some(0u32) {
        Some(BuildError::ZeroMinimumSubstringLength)
    } else {
        None
    }
}

/// What a call with these examples and this configuration hands to the
/// engine: the example set and the configuration, or the reason no engine
/// is made.
pub open spec fn prepared(examples: Seq<Value>, config: Value) -> Result<(Seq<Seq<char>>, Settings), BuildError> {
    let o = decode_spec(config);
    if !all_strings(examples) {
        Err(BuildError::TypeMismatch)
    } else if example_set(examples).len() == 0 {
        Err(BuildError::NoExamples)
    } else if options_error(o) is Some {
        Err(options_error(o).unwrap())
    } else {
        Ok((example_set(examples), apply_options(initial_settings(), o)))
    }
}

/// Applies decoded options to a builder, in the fixed order.
pub fn configure(engine: &mut Engine, options: &Options)
    requires
        options_error(options@) is None,
    ensures
        final(engine).cases() == old(engine).cases(),
        final(engine).settings() == apply_options(old(engine).settings(), options@),
{
    match &options.conversion_of {
        Some(fs) => engine.enable_all(fs),
        None => {},
    }
    if options.syntax_highlighting == Some(true) {
        engine.highlight_syntax();
    }
    match options.minimum_repetitions {
        Some(n) => engine.set_minimum_repetitions(n),
        None => {},
    }
    if options.escaped_non_ascii_chars == Some(true) {
        let use_surrogate_pairs = options.surrogate_pairs == Some(true);
        engine.escape_non_ascii(use_surrogate_pairs);
    }
    match options.minimum_substring_length {
        Some(n) => engine.set_minimum_substring_length(n),
        None => {},
    }
}

/// Validates the examples and decodes the configuration, then makes a
/// builder from the example set and configures it.
pub fn prepare(examples: &Vec<Value>, config: &Value) -> (r: Result<Engine, BuildError>)
    ensures
        match r {
            Ok(e) => prepared(examples@, *config) == Ok::<(Seq<Seq<char>>, Settings), BuildError>(
                (e.cases(), e.settings()),
            ),
            Err(x) => prepared(examples@, *config) == Err::<(Seq<Seq<char>>, Settings), BuildError>(x),
        },
{
    let cases = match normalize_examples(examples) {
        Ok(v) => v,
        Err(e) => return Err(e),
    };
    if cases.len() == 0 {
        return Err(BuildError::NoExamples);
    }
    let options = decode_options(config);
    if options.minimum_repetitions == Some(0u32) {
        return Err(BuildError::ZeroMinimumRepetitions);
    }
    if options.minimum_substring_length == Some(0u32) {
        return Err(BuildError::ZeroMinimumSubstringLength);
    }
    let mut engine = Engine::new(&cases);
    configure(&mut engine, &options);
    Ok(engine)
}

/// Builds one pattern from a list of example values and a configuration
/// value. It fails exactly where `prepare` does; otherwise the pattern is
/// one that grex synthesizes from the example set and configuration that
/// `prepare` set up.
pub fn build_regex(examples: &Vec<Value>, config: &Value) -> (r: Result<String, BuildError>)
    ensures
        match r {
            Ok(p) => prepared(examples@, *config) matches Ok(cs) && grex_may_build(cs.0, cs.1, p@),
            Err(x) => prepared(examples@, *config) == Err::<(Seq<Seq<char>>, Settings), BuildError>(x),
        },
{
    match prepare(examples, config) {
        Ok(engine) => Ok(engine.build()),
        Err(e) => Err(e),
    }
}

} // verus!
