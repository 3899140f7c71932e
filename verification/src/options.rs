//! The settings of the component-syntax transform that runs beside the
//! refresh glue. They are handed on as they are; the one decision made
//! here is whether that transform emits refresh registrations at all.

use vstd::prelude::*;

verus! {

/// How component syntax is turned into calls.
#[derive(Clone, Copy, PartialEq, Eq, Structural, Debug)]
pub enum Runtime {
    Automatic,
    Classic,
    Preserve,
}

/// The settings as the bundler's configuration gives them.
#[derive(Clone, Debug, PartialEq, Eq)]
pub struct ReactOptions {
    pub runtime: Option<Runtime>,
    pub import_source: Option<String>,
    pub pragma: Option<String>,
    pub pragma_frag: Option<String>,
    pub throw_if_namespace: Option<bool>,
    pub development: Option<bool>,
    pub use_builtins: Option<bool>,
    pub use_spread: Option<bool>,
}

/// The settings as the transform takes them. `refresh` says whether the
/// transform emits refresh registrations, with its default names.
#[derive(Clone, Debug, PartialEq, Eq)]
pub struct Options {
    pub refresh: bool,
    pub runtime: Option<Runtime>,
    pub import_source: Option<String>,
    pub pragma: Option<String>,
    pub pragma_frag: Option<String>,
    pub throw_if_namespace: Option<bool>,
    pub development: Option<bool>,
    pub use_builtins: Option<bool>,
    pub use_spread: Option<bool>,
}

/// Refresh registrations are emitted in development mode only: when the
/// flag is set, and set to `true`.
pub open spec fn refresh_enabled(development: Option<bool>) -> bool {
    development == Some(true)
}

/// A copy of an optional text.
pub fn clone_text(text: &Option<String>) -> (copy: Option<String>)
    ensures
        copy == *text,
{
    match text {
        Some(s) => Some(s.clone()),
        None => None,
    }
}

/// The transform's settings for the given configuration: every setting is
/// handed on unchanged, and refresh registrations are switched on exactly
/// in development mode.
pub fn react(options: &ReactOptions) -> (out: Options)
    ensures
        out.refresh == refresh_enabled(options.development),
        out.runtime == options.runtime,
        out.import_source == options.import_source,
        out.pragma == options.pragma,
        out.pragma_frag == options.pragma_frag,
        out.throw_if_namespace == options.throw_if_namespace,
        out.development == options.development,
        out.use_builtins == options.use_builtins,
        out.use_spread == options.use_spread,
{
    let refresh = match options.development {
        Some(dev) => dev,
        None => false,
    };
    Options {
        refresh,
        runtime: options.runtime,
        import_source: clone_text(&options.import_source),
        pragma: clone_text(&options.pragma),
        pragma_frag: clone_text(&options.pragma_frag),
        throw_if_namespace: options.throw_if_namespace,
        development: options.development,
        use_builtins: options.use_builtins,
        use_spread: options.use_spread,
    }
}

} // verus!
