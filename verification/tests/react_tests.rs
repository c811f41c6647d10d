//! The transform preset's configuration surface.

use parser_boundary::react::{
    default_for_development, JsxOptions, React, ReactJsxRuntime, ReactOptions,
};

#[test]
fn default_react_options() {
    let o = ReactOptions::default();
    assert!(!o.development);
    assert!(!o.display_name);
    assert!(o.pure);
    assert_eq!(o.runtime, ReactJsxRuntime::Automatic);
    assert!(!o.self_prop);
    assert!(!o.source_prop);
    assert!(o.throw_if_namespace);
}

#[test]
fn react_stores_its_options() {
    let o = ReactOptions {
        development: true,
        display_name: true,
        pure: false,
        runtime: ReactJsxRuntime::Classic,
        self_prop: true,
        source_prop: false,
        throw_if_namespace: false,
    };
    let r = React::new(o, JsxOptions {});
    assert!(r.options().development);
    assert!(r.options().display_name);
    assert!(!r.options().pure);
    assert_eq!(r.options().runtime, ReactJsxRuntime::Classic);
    assert!(r.options().self_prop);
    assert!(!r.options().source_prop);
    assert!(!r.options().throw_if_namespace);
    let _ = r.jsx();
}

#[test]
fn development_default_follows_the_environment_value() {
    assert!(!default_for_development(None));
    assert!(!default_for_development(Some("production".to_string())));
    assert!(default_for_development(Some("development".to_string())));
    assert!(default_for_development(Some("test".to_string())));
}
