//! Options of the JSX-to-function-call transform preset.
//!
//! The transform itself is a pure tree-traversal consumer of an already
//! built tree and lives with the outside engine; only its configuration
//! surface is modeled here.

use vstd::prelude::*;

verus! {

/// Configuration of the preset.
pub struct ReactOptions {
    /// Development-mode output (extra debugging information).
    pub development: bool,
    /// Add a display name to created components.
    pub display_name: bool,
    /// Annotate element-creating calls as pure for minifiers.
    pub pure: bool,
    /// Which runtime the transpiled calls target.
    pub runtime: ReactJsxRuntime,
    /// Pass the component itself to created elements.
    pub self_prop: bool,
    /// Pass source-location information to created elements.
    pub source_prop: bool,
    /// Error on namespaced JSX names instead of accepting them.
    pub throw_if_namespace: bool,
}

impl Default for ReactOptions {
    /// Automatic runtime, pure annotations and namespace errors on,
    /// everything else off. Whether development mode should follow the
    /// process environment is the driver's decision; it sets
    /// `development` itself.
    fn default() -> (r: Self)
        ensures
            !r.development,
            !r.display_name,
            r.pure,
            r.runtime is Automatic,
            !r.self_prop,
            !r.source_prop,
            r.throw_if_namespace,
    {
        ReactOptions {
            development: false,
            display_name: false,
            pure: true,
            runtime: ReactJsxRuntime::Automatic,
            self_prop: false,
            source_prop: false,
            throw_if_namespace: true,
        }
    }
}

/// The development default, decided from the value of the NODE_ENV
/// variable: on exactly when the variable is set to anything but
/// "production". The driver reads the environment and hands the value in.
pub fn default_for_development(node_env: Option<String>) -> (r: bool)
    ensures
        r == (node_env matches Some(v) && v@ != "production"@),
{
    match node_env {
        Some(v) => {
            let lit: String = "production".to_owned();
            !(v == lit)
        },
        None => false,
    }
}

/// Decides which runtime to use.
///
/// Automatic imports the functions that JSX transpiles to; Classic does
/// not import anything.
#[derive(Clone, Copy, PartialEq, Eq, Structural, Debug)]
pub enum ReactJsxRuntime {
    Classic,
    Automatic,
}

/// JSX handling options of the wider transform pipeline the preset sits
/// in; the preset only stores them for its plugins.
pub struct JsxOptions {}

/// The preset: its configuration and the JSX options handed to it. Its
/// transform plugins consume the built tree inside the outside engine and
/// are not modeled.
pub struct React {
    options: ReactOptions,
    jsx: JsxOptions,
}

impl React {
    /// The configuration the preset was built with.
    pub closed spec fn spec_options(self) -> ReactOptions {
        self.options
    }

    /// The JSX options the preset was built with.
    pub closed spec fn spec_jsx(self) -> JsxOptions {
        self.jsx
    }

    /// Build the preset over its options; it starts with no plugins.
    pub fn new(options: ReactOptions, jsx: JsxOptions) -> (r: React)
        ensures
            r.spec_options() == options,
            r.spec_jsx() == jsx,
    {
        React { options, jsx }
    }

    /// The configuration the preset was built with.
    pub fn options(&self) -> (r: &ReactOptions)
        ensures
            *r == self.spec_options(),
    {
        &self.options
    }

    /// The JSX options the preset was built with.
    pub fn jsx(&self) -> (r: &JsxOptions)
        ensures
            *r == self.spec_jsx(),
    {
        &self.jsx
    }
}

} // verus!
