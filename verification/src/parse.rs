//! Parse orchestration: the conventional entry points around the outside
//! parsing engine.
//!
//! The engine itself (tokenizer, grammar, tree construction) and the
//! ESTree serialization of the tree are outside collaborators, reached
//! through trusted wrappers. The tree's JSON text, the comment list and
//! the number of diagnostics are functions of the source text and the
//! resolved source kind alone; the uninterpreted spec functions below name
//! those results, and the entry points' contracts are stated over the
//! names, so two calls on equal inputs provably agree on them — however
//! and wherever they run. The rendered diagnostic *strings* are not such a
//! function (rendering goes through a process-global report hook and reads
//! the environment), so only their count is named.

use std::sync::Arc;

use oxc_allocator::Allocator;
use oxc_diagnostics::NamedSource;
use oxc_parser::{ParseOptions, Parser};
use oxc_span::SourceType;
use vstd::prelude::*;

verus! {

/// Options accepted by every parse entry point.
///
/// `source_type` may name "script" or "module" to override the
/// filename-derived default; `source_filename` drives extension-based type
/// detection and diagnostic attribution; `preserve_parens` keeps
/// parenthesized expressions as their own nodes (default true).
pub struct ParserOptions {
    pub source_type: Option<String>,
    pub source_filename: Option<String>,
    pub preserve_parens: Option<bool>,
}

impl Default for ParserOptions {
    /// All fields unset: module/script from content, parentheses kept.
    fn default() -> (r: Self)
        ensures
            r.source_type is None,
            r.source_filename is None,
            r.preserve_parens is None,
    {
        ParserOptions { source_type: None, source_filename: None, preserve_parens: None }
    }
}

/// One comment of the parsed source: "Line" or "Block", its text without
/// delimiters, and the text's byte offsets into the source.
pub struct Comment {
    pub kind: &'static str,
    pub value: String,
    pub start: u32,
    pub end: u32,
}

/// What a normal-path parse returns: the serialized tree, the comments in
/// document order, and the formatted diagnostics (empty exactly when the
/// source has no syntax errors).
pub struct ParseResult {
    pub program: String,
    pub comments: Vec<Comment>,
    pub errors: Vec<String>,
}

/// The resolved source kind handed to the engine, as plain values: the
/// module kind (`MK_SCRIPT`, `MK_MODULE`, `MK_UNAMBIGUOUS` or
/// `MK_COMMONJS`) and the typescript / typescript definition / jsx flags.
pub struct SourceKind {
    pub module_kind: u8,
    pub typescript: bool,
    pub definition: bool,
    pub jsx: bool,
}

/// Module kind: plain script.
pub const MK_SCRIPT: u8 = 0;

/// Module kind: ES module.
pub const MK_MODULE: u8 = 1;

/// Module kind: decided by the engine from the content.
pub const MK_UNAMBIGUOUS: u8 = 2;

/// Module kind: CommonJS module.
pub const MK_COMMONJS: u8 = 3;

/// Whether the outside engine accepts `name`'s extension as a source path.
pub uninterp spec fn valid_source_path(name: Seq<char>) -> bool;

/// The source kind a path's extension yields, before any override:
/// (module kind, typescript, typescript definition, jsx).
pub uninterp spec fn kind_of_path(name: Seq<char>) -> (u8, bool, bool, bool);

/// The ESTree JSON text of the tree parsed from `src` as the given kind.
pub uninterp spec fn estree_json_of(
    src: Seq<char>,
    module_kind: u8,
    typescript: bool,
    definition: bool,
    jsx: bool,
    preserve_parens: bool,
) -> Seq<char>;

/// The comments of `src` parsed as the given kind, in document order:
/// (is-line-comment, text, start offset, end offset).
pub uninterp spec fn comments_of(
    src: Seq<char>,
    module_kind: u8,
    typescript: bool,
    definition: bool,
    jsx: bool,
    preserve_parens: bool,
) -> Seq<(bool, Seq<char>, u32, u32)>;

/// How many syntax diagnostics parsing `src` as the given kind produces:
/// zero exactly when the source parses without syntax errors.
pub uninterp spec fn diag_count_of(
    src: Seq<char>,
    module_kind: u8,
    typescript: bool,
    definition: bool,
    jsx: bool,
    preserve_parens: bool,
) -> int;

/// The compact self-describing binary form of a JSON text.
pub uninterp spec fn flex_encoding_of(json: Seq<char>) -> Seq<u8>;

/// Whether a byte sequence is well-formed UTF-8.
pub uninterp spec fn utf8_valid(bytes: Seq<u8>) -> bool;

/// View of an optional filename.
pub open spec fn name_view(f: Option<String>) -> Option<Seq<char>> {
    match f {
        Some(s) => Some(s@),
        None => None,
    }
}

/// Views of the raw comment tuples a wrapper hands out.
pub open spec fn comment_tuple_views(v: Seq<(bool, String, u32, u32)>) -> Seq<
    (bool, Seq<char>, u32, u32),
> {
    v.map_values(|t: (bool, String, u32, u32)| (t.0, t.1@, t.2, t.3))
}

/// The UTF-8 bytes of one character, as the encoding is defined.
pub open spec fn char_utf8(c: char) -> Seq<u8> {
    let x = c as u32;
    if x < 0x80 {
        seq![x as u8]
    } else if x < 0x800 {
        seq![(0xC0 | (x >> 6)) as u8, (0x80 | (x & 0x3F)) as u8]
    } else if x < 0x10000 {
        seq![(0xE0 | (x >> 12)) as u8, (0x80 | ((x >> 6) & 0x3F)) as u8, (0x80 | (x & 0x3F)) as u8]
    } else {
        seq![
            (0xF0 | (x >> 18)) as u8,
            (0x80 | ((x >> 12) & 0x3F)) as u8,
            (0x80 | ((x >> 6) & 0x3F)) as u8,
            (0x80 | (x & 0x3F)) as u8,
        ]
    }
}

/// The UTF-8 encoding of a character sequence: the bytes a string of
/// these characters occupies.
pub open spec fn utf8_encode(s: Seq<char>) -> Seq<u8>
    decreases s.len(),
{
    if s.len() == 0 {
        Seq::empty()
    } else {
        char_utf8(s[0]) + utf8_encode(s.drop_first())
    }
}

/// Relies on oxc_span::SourceType::from_path: Ok exactly for the
/// extensions the engine knows, and a function of the path alone.
#[verifier::external_body]
fn check_source_path(name: &String) -> (r: bool)
    ensures
        r == valid_source_path(name@),
{
    SourceType::from_path(name).is_ok()
}

/// Relies on oxc_span::SourceType::from_path and the SourceType
/// predicates: the kind a known path's extension yields — its module kind
/// (never plain script), language and jsx flags — is a function of the
/// path alone.
#[verifier::external_body]
fn source_kind_from_path(name: &String) -> (r: (u8, bool, bool, bool))
    requires
        valid_source_path(name@),
    ensures
        r == kind_of_path(name@),
        r.0 == MK_MODULE || r.0 == MK_UNAMBIGUOUS || r.0 == MK_COMMONJS,
{
    let st = SourceType::from_path(name).unwrap();
    let mk: u8 = if st.is_module() { MK_MODULE } else if st.is_unambiguous() { MK_UNAMBIGUOUS } else { MK_COMMONJS };
    (mk, st.is_typescript(), st.is_typescript_definition(), st.is_jsx())
}

/// Relies on oxc_parser::Parser::parse and oxc_ast's
/// Program::to_estree_json: the JSON text depends on the source and the
/// resolved kind alone. The body only constructs the engine's source type
/// value from the plain kind and runs the engine.
#[verifier::external_body]
fn oxc_program_json(src: &String, kind: &SourceKind, preserve_parens: bool) -> (r: String)
    ensures
        r@ == estree_json_of(
            src@,
            kind.module_kind,
            kind.typescript,
            kind.definition,
            kind.jsx,
            preserve_parens,
        ),
{
    let st = SourceType::default().with_script(kind.module_kind == MK_SCRIPT).with_unambiguous(kind.module_kind == MK_UNAMBIGUOUS).with_commonjs(kind.module_kind == MK_COMMONJS);
    let st = st.with_typescript(kind.typescript).with_typescript_definition(kind.definition).with_jsx(kind.jsx);
    let allocator = Allocator::default();
    let mut opts = ParseOptions::default();
    opts.preserve_parens = preserve_parens;
    let ret = Parser::new(&allocator, src, st).with_options(opts).parse();
    ret.program.to_estree_json(st.is_typescript(), false)
}

/// Relies on oxc_parser::Parser::parse and oxc_ast's Comment: the comment
/// list depends on the source and the resolved kind alone. The engine
/// stores comments in document order with disjoint spans, and each entry's
/// text is the content span's slice of the source (Comment::content_span,
/// Span::source_text), so its offsets are ordered byte offsets bounded by
/// the source's byte length and its text's bytes are exactly that slice.
#[verifier::external_body]
fn oxc_comments(src: &String, kind: &SourceKind, preserve_parens: bool) -> (r: Vec<
    (bool, String, u32, u32),
>)
    ensures
        comment_tuple_views(r@) == comments_of(
            src@,
            kind.module_kind,
            kind.typescript,
            kind.definition,
            kind.jsx,
            preserve_parens,
        ),
        forall|i: int|
            0 <= i < r@.len() ==> {
                let t = #[trigger] r@[i];
                &&& t.2 <= t.3
                &&& t.3 as int <= utf8_encode(src@).len()
                &&& utf8_encode(t.1@) == utf8_encode(src@).subrange(t.2 as int, t.3 as int)
            },
        forall|i: int, j: int|
            0 <= i < j < r@.len() ==> (#[trigger] r@[i]).3 <= (#[trigger] r@[j]).2,
{
    let st = SourceType::default().with_script(kind.module_kind == MK_SCRIPT).with_unambiguous(kind.module_kind == MK_UNAMBIGUOUS).with_commonjs(kind.module_kind == MK_COMMONJS);
    let st = st.with_typescript(kind.typescript).with_typescript_definition(kind.definition).with_jsx(kind.jsx);
    let allocator = Allocator::default();
    let mut opts = ParseOptions::default();
    opts.preserve_parens = preserve_parens;
    let ret = Parser::new(&allocator, src, st).with_options(opts).parse();
    let mut out = Vec::new();
    for c in ret.program.comments.iter() {
        let cs = c.content_span();
        out.push((c.is_line(), cs.source_text(src).to_string(), cs.start, cs.end));
    }
    out
}

/// Relies on oxc_parser::Parser::parse and
/// oxc_diagnostics::OxcDiagnostic::with_source_code. The *number* of
/// diagnostics is a function of the source and the resolved kind; the
/// rendered strings are not (miette's report handler is a process-global,
/// settable hook, and the default one reads the environment), so nothing
/// is claimed of their content. Each diagnostic is rendered with source
/// attribution to the given filename.
#[verifier::external_body]
fn oxc_errors(
    src: &String,
    filename: &Option<String>,
    kind: &SourceKind,
    preserve_parens: bool,
) -> (r: Vec<String>)
    ensures
        r@.len() == diag_count_of(
            src@,
            kind.module_kind,
            kind.typescript,
            kind.definition,
            kind.jsx,
            preserve_parens,
        ),
{
    let st = SourceType::default().with_script(kind.module_kind == MK_SCRIPT).with_unambiguous(kind.module_kind == MK_UNAMBIGUOUS).with_commonjs(kind.module_kind == MK_COMMONJS);
    let st = st.with_typescript(kind.typescript).with_typescript_definition(kind.definition).with_jsx(kind.jsx);
    let allocator = Allocator::default();
    let mut opts = ParseOptions::default();
    opts.preserve_parens = preserve_parens;
    let ret = Parser::new(&allocator, src, st).with_options(opts).parse();
    let source = Arc::new(NamedSource::new(filename.clone().unwrap_or_default(), src.clone()));
    let mut out = Vec::new();
    for d in ret.diagnostics {
        out.push(format!("{:?}", d.with_source_code(Arc::clone(&source))));
    }
    out
}

/// Relies on serde_json::from_str and flexbuffers::FlexbufferSerializer:
/// the binary form depends on the JSON text alone (both keep map keys
/// sorted, so the encoding is stable). A text serde_json cannot decode —
/// not JSON, or nested beyond its recursion limit — encodes as the null
/// value.
#[verifier::external_body]
fn flex_encode(json: &String) -> (r: Vec<u8>)
    ensures
        r@ == flex_encoding_of(json@),
{
    let value: serde_json::Value = serde_json::from_str(json).unwrap_or(serde_json::Value::Null);
    let mut s = flexbuffers::FlexbufferSerializer::new();
    let _ = serde::Serialize::serialize(&value, &mut s);
    s.take_buffer()
}

/// Relies on simdutf8::basic::from_utf8: Ok exactly when the bytes are
/// well-formed UTF-8.
#[verifier::external_body]
fn utf8_check(bytes: &[u8]) -> (r: bool)
    ensures
        r == utf8_valid(bytes@),
{
    simdutf8::basic::from_utf8(bytes).is_ok()
}

/// The filename the options carry, if any.
pub open spec fn spec_filename(o: Option<ParserOptions>) -> Option<Seq<char>> {
    match o {
        Some(op) => name_view(op.source_filename),
        None => None,
    }
}

/// Whether the options force script parsing.
pub open spec fn spec_force_script(o: Option<ParserOptions>) -> bool {
    match o {
        Some(op) => match op.source_type {
            Some(s) => s@ == "script"@,
            None => false,
        },
        None => false,
    }
}

/// Whether the options force module parsing.
pub open spec fn spec_force_module(o: Option<ParserOptions>) -> bool {
    match o {
        Some(op) => match op.source_type {
            Some(s) => s@ == "module"@,
            None => false,
        },
        None => false,
    }
}

/// The effective parenthesis-preservation flag: true unless set to false.
pub open spec fn spec_preserve_parens(o: Option<ParserOptions>) -> bool {
    match o {
        Some(op) => match op.preserve_parens {
            Some(b) => b,
            None => true,
        },
        None => true,
    }
}

/// Whether the options' filename, if any, carries a known extension.
pub open spec fn filename_ok(o: Option<ParserOptions>) -> bool {
    match spec_filename(o) {
        Some(n) => valid_source_path(n),
        None => true,
    }
}

/// The source kind a filename and the explicit overrides resolve to: an
/// explicit "script" beats everything, then an explicit "module", then
/// the filename-derived default; without a filename the default is a
/// module of standard JavaScript.
pub open spec fn spec_kind(
    filename: Option<Seq<char>>,
    force_script: bool,
    force_module: bool,
) -> (u8, bool, bool, bool) {
    let base = match filename {
        Some(n) => kind_of_path(n),
        None => (MK_MODULE, false, false, false),
    };
    if force_script {
        (MK_SCRIPT, base.1, base.2, base.3)
    } else if force_module {
        (MK_MODULE, base.1, base.2, base.3)
    } else {
        base
    }
}

/// The kind the given options resolve to.
pub open spec fn spec_resolved_kind(o: Option<ParserOptions>) -> (u8, bool, bool, bool) {
    spec_kind(spec_filename(o), spec_force_script(o), spec_force_module(o))
}

/// A resolved kind value matches its spec tuple.
pub open spec fn kind_matches(k: SourceKind, t: (u8, bool, bool, bool)) -> bool {
    k.module_kind == t.0 && k.typescript == t.1 && k.definition == t.2 && k.jsx == t.3
}

/// Resolve the source kind: the explicit script/module option overrides
/// the filename-derived default; without a filename the default is a
/// module of standard JavaScript.
fn resolve_kind(filename: &Option<String>, force_script: bool, force_module: bool) -> (r:
    SourceKind)
    requires
        filename matches Some(n) ==> valid_source_path(n@),
    ensures
        kind_matches(r, spec_kind(name_view(*filename), force_script, force_module)),
{
    let base: (u8, bool, bool, bool) = match filename {
        Some(n) => source_kind_from_path(n),
        None => (MK_MODULE, false, false, false),
    };
    let mk: u8 = if force_script {
        MK_SCRIPT
    } else if force_module {
        MK_MODULE
    } else {
        base.0
    };
    SourceKind { module_kind: mk, typescript: base.1, definition: base.2, jsx: base.3 }
}

/// A built comment mirrors a raw tuple from the engine.
pub open spec fn comment_matches(c: Comment, t: (bool, Seq<char>, u32, u32)) -> bool {
    &&& c.kind@ == (if t.0 {
        "Line"@
    } else {
        "Block"@
    })
    &&& c.value@ == t.1
    &&& c.start == t.2
    &&& c.end == t.3
}

/// A well-formed comment of `src`: its kind is "Line" or "Block", its
/// offsets are ordered byte offsets into the source, and its text's bytes
/// are exactly the source's bytes between them.
pub open spec fn comment_wf(c: Comment, src: Seq<char>) -> bool {
    &&& (c.kind@ == "Line"@ || c.kind@ == "Block"@)
    &&& c.start <= c.end
    &&& c.end as int <= utf8_encode(src).len()
    &&& utf8_encode(c.value@) == utf8_encode(src).subrange(c.start as int, c.end as int)
}

/// The full contract of a normal-path parse: the serialized tree and the
/// comments are exactly those of `src` under the resolved kind, every
/// comment is well formed and they come in document order with disjoint
/// spans, and the error list has one entry per syntax diagnostic — empty
/// exactly when the parse found none.
pub open spec fn is_parse_output(
    r: ParseResult,
    src: Seq<char>,
    kind: (u8, bool, bool, bool),
    preserve_parens: bool,
) -> bool {
    &&& r.program@ == estree_json_of(src, kind.0, kind.1, kind.2, kind.3, preserve_parens)
    &&& r.comments@.len() == comments_of(
        src,
        kind.0,
        kind.1,
        kind.2,
        kind.3,
        preserve_parens,
    ).len()
    &&& forall|i: int|
        0 <= i < r.comments@.len() ==> comment_matches(
            #[trigger] r.comments@[i],
            comments_of(src, kind.0, kind.1, kind.2, kind.3, preserve_parens)[i],
        )
    &&& forall|i: int| 0 <= i < r.comments@.len() ==> comment_wf(#[trigger] r.comments@[i], src)
    &&& forall|i: int, j: int|
        0 <= i < j < r.comments@.len() ==> (#[trigger] r.comments@[i]).end
            <= (#[trigger] r.comments@[j]).start
    &&& r.errors@.len() == diag_count_of(src, kind.0, kind.1, kind.2, kind.3, preserve_parens)
}

/// The script/module overrides and the parenthesis flag the options resolve
/// to: an explicit "script" or "module" beats any filename-derived default.
fn resolved_flags(opts: &ParserOptions) -> (r: (bool, bool, bool))
    ensures
        r.0 == spec_force_script(Some(*opts)),
        r.1 == spec_force_module(Some(*opts)),
        r.2 == spec_preserve_parens(Some(*opts)),
{
    let force_script: bool = match &opts.source_type {
        Some(s) => {
            let lit: String = "script".to_owned();
            *s == lit
        },
        None => false,
    };
    let force_module: bool = match &opts.source_type {
        Some(s) => {
            let lit: String = "module".to_owned();
            *s == lit
        },
        None => false,
    };
    let preserve_parens: bool = match opts.preserve_parens {
        Some(b) => b,
        None => true,
    };
    (force_script, force_module, preserve_parens)
}

/// Whether the options' filename, if any, names a known extension —
/// checked through the engine itself.
fn filename_is_known(options: &Option<ParserOptions>) -> (r: bool)
    ensures
        r == filename_ok(*options),
{
    match options {
        Some(o) => match &o.source_filename {
            Some(n) => check_source_path(n),
            None => true,
        },
        None => true,
    }
}

/// Parse synchronously and return the structured result. For any source
/// text, the call returns the serialized tree, the well-formed comments in
/// document order, and one rendered diagnostic per syntax error — none
/// exactly when the source is syntactically clean; a malformed source
/// still yields a well-formed result with its errors listed.
pub fn parse_sync(source_text: String, options: Option<ParserOptions>) -> (r: ParseResult)
    requires
        filename_ok(options),
    ensures
        is_parse_output(r, source_text@, spec_resolved_kind(options), spec_preserve_parens(options)),
{
    let opts = match options {
        Some(o) => o,
        None => ParserOptions::default(),
    };
    let flags = resolved_flags(&opts);
    let kind = resolve_kind(&opts.source_filename, flags.0, flags.1);
    assert(kind_matches(kind, spec_resolved_kind(options)));
    let program = oxc_program_json(&source_text, &kind, flags.2);
    let raw = oxc_comments(&source_text, &kind, flags.2);
    let errors = oxc_errors(&source_text, &opts.source_filename, &kind, flags.2);
    let ghost kt = spec_resolved_kind(options);
    let ghost cs = comments_of(source_text@, kt.0, kt.1, kt.2, kt.3, flags.2);
    let mut comments: Vec<Comment> = Vec::new();
    let mut i: usize = 0;
    while i < raw.len()
        invariant
            i <= raw.len(),
            comment_tuple_views(raw@) == cs,
            comments@.len() == i,
            forall|j: int| 0 <= j < i ==> comment_matches(#[trigger] comments@[j], cs[j]),
            forall|j: int| 0 <= j < i ==> comment_wf(#[trigger] comments@[j], source_text@),
            forall|j: int|
                0 <= j < i ==> (#[trigger] comments@[j]).start == raw@[j].2 && comments@[j].end
                    == raw@[j].3,
            forall|j: int|
                0 <= j < raw@.len() ==> {
                    let t = #[trigger] raw@[j];
                    &&& t.2 <= t.3
                    &&& t.3 as int <= utf8_encode(source_text@).len()
                    &&& utf8_encode(t.1@) == utf8_encode(source_text@).subrange(
                        t.2 as int,
                        t.3 as int,
                    )
                },
            forall|j: int, k: int|
                0 <= j < k < raw@.len() ==> (#[trigger] raw@[j]).3 <= (#[trigger] raw@[k]).2,
        decreases raw.len() - i,
    {
        let kind_str: &'static str = if raw[i].0 {
            "Line"
        } else {
            "Block"
        };
        let value: String = raw[i].1.clone();
        comments.push(Comment { kind: kind_str, value, start: raw[i].2, end: raw[i].3 });
        assert(cs[i as int] == (
            raw@[i as int].0,
            raw@[i as int].1@,
            raw@[i as int].2,
            raw@[i as int].3,
        ));
        i = i + 1;
    }
    assert forall|j: int, k: int|
        0 <= j < k < comments@.len() implies (#[trigger] comments@[j]).end
        <= (#[trigger] comments@[k]).start by {
        assert(raw@[j].3 <= raw@[k].2);
    }
    ParseResult { program, comments, errors }
}

/// `parse_sync` behind an explicit filename check: returns `None` exactly
/// when the options name a file whose extension the engine does not know,
/// and the parse result otherwise.
pub fn try_parse_sync(source_text: String, options: Option<ParserOptions>) -> (r: Option<
    ParseResult,
>)
    ensures
        r is Some <==> filename_ok(options),
        r matches Some(p) ==> is_parse_output(
            p,
            source_text@,
            spec_resolved_kind(options),
            spec_preserve_parens(options),
        ),
{
    let ok: bool = filename_is_known(&options);
    if ok {
        Some(parse_sync(source_text, options))
    } else {
        None
    }
}

/// Parse synchronously and return the tree in its compact self-describing
/// binary form: the binary encoding of exactly the JSON text that
/// `parse_sync` would return as `program`.
pub fn parse_sync_buffer(source_text: String, options: Option<ParserOptions>) -> (r: Vec<u8>)
    requires
        filename_ok(options),
    ensures
        ({
            let kind = spec_resolved_kind(options);
            r@ == flex_encoding_of(
                estree_json_of(
                    source_text@,
                    kind.0,
                    kind.1,
                    kind.2,
                    kind.3,
                    spec_preserve_parens(options),
                ),
            )
        }),
{
    let opts = match options {
        Some(o) => o,
        None => ParserOptions::default(),
    };
    let flags = resolved_flags(&opts);
    let kind = resolve_kind(&opts.source_filename, flags.0, flags.1);
    let json = oxc_program_json(&source_text, &kind, flags.2);
    flex_encode(&json)
}

/// `parse_sync_buffer` behind an explicit filename check, as
/// `try_parse_sync` is to `parse_sync`.
pub fn try_parse_sync_buffer(source_text: String, options: Option<ParserOptions>) -> (r: Option<
    Vec<u8>,
>)
    ensures
        r is Some <==> filename_ok(options),
        r matches Some(b) ==> ({
            let kind = spec_resolved_kind(options);
            b@ == flex_encoding_of(
                estree_json_of(
                    source_text@,
                    kind.0,
                    kind.1,
                    kind.2,
                    kind.3,
                    spec_preserve_parens(options),
                ),
            )
        }),
{
    let ok: bool = filename_is_known(&options);
    if ok {
        Some(parse_sync_buffer(source_text, options))
    } else {
        None
    }
}

/// Parse and return nothing, for measuring call overhead alone: resolves
/// the options and runs the engine exactly as `parse_sync` does, then
/// discards the result.
pub fn parse_without_return(source_text: String, options: Option<ParserOptions>)
    requires
        filename_ok(options),
{
    let opts = match options {
        Some(o) => o,
        None => ParserOptions::default(),
    };
    let flags = resolved_flags(&opts);
    let kind = resolve_kind(&opts.source_filename, flags.0, flags.1);
    let _ = oxc_program_json(&source_text, &kind, flags.2);
}

/// `parse_without_return` behind an explicit filename check: reports
/// whether the parse was run, which it is exactly when any filename the
/// options carry has a known extension.
pub fn try_parse_without_return(source_text: String, options: Option<ParserOptions>) -> (ran:
    bool)
    ensures
        ran == filename_ok(options),
{
    let ok: bool = filename_is_known(&options);
    if ok {
        parse_without_return(source_text, options);
    }
    ok
}

/// Raw-path preflight: validate the caller-written source region and
/// partition the buffer. Returns the arena region exactly when the bytes
/// are well-formed UTF-8 and enough room is left for the arena and the
/// trailer; any violation is a caller contract error, reported as `None`
/// for the driver to abort on rather than silently truncate.
pub fn plan_raw_parse(source: &[u8]) -> (r: Option<crate::layout::RawLayout>)
    requires
        source@.len() < crate::layout::TOTAL_SIZE,
    ensures
        r is Some <==> utf8_valid(source@) && crate::layout::round_up_16(source@.len() as int)
            + crate::layout::TRAILER_SIZE + crate::layout::ARENA_MIN_SIZE
            <= crate::layout::TOTAL_SIZE,
        r matches Some(l) ==> crate::layout::layout_wf(l, source@.len() as u32),
{
    if !utf8_check(source) {
        return None;
    }
    crate::layout::compute_layout(source.len() as u32)
}

/// The raw protocol's computation, end to end: validate the source
/// region, partition the buffer, build the raw-mode arena over the data
/// region, allocate the engine's root object of `root_size` bytes in it,
/// and return the 32-bit offset to write into the trailer. `None` exactly
/// when a precondition of the protocol is violated — malformed UTF-8, no
/// room for the arena, or a root that does not fit — each of which the
/// driver turns into a fatal failure rather than a truncated result.
pub fn raw_root_offset(source: &[u8], root_size: u64) -> (r: Option<u32>)
    requires
        source@.len() < crate::layout::TOTAL_SIZE,
    ensures
        r matches Some(root) ==> crate::layout::round_up_16(source@.len() as int) <= root
            < crate::layout::TOTAL_SIZE - crate::layout::TRAILER_SIZE,
        r is Some <==> utf8_valid(source@) && crate::layout::round_up_16(source@.len() as int)
            + crate::layout::TRAILER_SIZE + crate::layout::ARENA_MIN_SIZE
            <= crate::layout::TOTAL_SIZE && crate::arena::padded(root_size as int)
            <= crate::layout::TOTAL_SIZE - crate::layout::TRAILER_SIZE - crate::layout::round_up_16(
            source@.len() as int,
        ),
{
    let layout = match plan_raw_parse(source) {
        Some(l) => l,
        None => {
            return None;
        },
    };
    let mut arena = crate::arena::Arena::from_region(layout.data_size);
    let off = match arena.try_allocate(root_size) {
        Some(o) => o,
        None => {
            return None;
        },
    };
    Some(crate::layout::root_offset(&layout, off, source.len() as u32))
}

/// A parse offloaded to a worker returns exactly what a synchronous parse
/// returns in everything the engine decides: the serialized tree, the
/// comments and the number of diagnostics are functions of the source and
/// the resolved options alone, so execution locality cannot change them.
/// (The diagnostics' rendered text is the report handler's, not the
/// engine's, and is pinned only in count.)
pub proof fn lemma_parse_output_deterministic(
    r1: ParseResult,
    r2: ParseResult,
    src: Seq<char>,
    kind: (u8, bool, bool, bool),
    preserve_parens: bool,
)
    requires
        is_parse_output(r1, src, kind, preserve_parens),
        is_parse_output(r2, src, kind, preserve_parens),
    ensures
        r1.program@ == r2.program@,
        r1.comments@.len() == r2.comments@.len(),
        forall|i: int|
            0 <= i < r1.comments@.len() ==> {
                &&& (#[trigger] r1.comments@[i]).kind@ == r2.comments@[i].kind@
                &&& r1.comments@[i].value@ == r2.comments@[i].value@
                &&& r1.comments@[i].start == r2.comments@[i].start
                &&& r1.comments@[i].end == r2.comments@[i].end
            },
        r1.errors@.len() == r2.errors@.len(),
{
    assert forall|i: int| 0 <= i < r1.comments@.len() implies {
        &&& (#[trigger] r1.comments@[i]).kind@ == r2.comments@[i].kind@
        &&& r1.comments@[i].value@ == r2.comments@[i].value@
        &&& r1.comments@[i].start == r2.comments@[i].start
        &&& r1.comments@[i].end == r2.comments@[i].end
    } by {
        let t = comments_of(src, kind.0, kind.1, kind.2, kind.3, preserve_parens)[i];
        assert(comment_matches(r1.comments@[i], t));
        assert(comment_matches(r2.comments@[i], t));
    }
}

} // verus!
