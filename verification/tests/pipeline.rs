use metro_swc_transformer::api::{prepare_pipeline, MetroJSTransformerInput};
use metro_swc_transformer::options::{
    get_config_options, get_module_config, rewrite_passes, CommonJsConfig, EsTarget, MinifyToggles,
    ModuleConversion, PassKind, ReactConfig,
};
use metro_swc_transformer::parse::{check_parses, locate};
use metro_swc_transformer::syntax::{has_typescript_extension, select_syntax, SyntaxDialect};

#[test]
fn recipe_for_ecmascript() {
    let r = get_config_options(false);
    assert_eq!(r.target, EsTarget::Es5);
    assert_eq!(r.syntax, SyntaxDialect::EcmaScript { jsx: true });
    assert!(!r.loose);
    assert_eq!(r.minify, MinifyToggles { compress: false, mangle: false });
    assert_eq!(
        r.react,
        ReactConfig { automatic_runtime: true, refresh: true, development: true }
    );
    assert_eq!(
        r.module,
        ModuleConversion::CommonJs(CommonJsConfig {
            strict: false,
            strict_mode: false,
            no_interop: false,
        })
    );
}

#[test]
fn recipe_for_typescript() {
    let r = get_config_options(true);
    assert_eq!(r.syntax, SyntaxDialect::TypeScript { tsx: true });
    assert_eq!(r.target, EsTarget::Es5);
    assert_eq!(r.minify, MinifyToggles { compress: false, mangle: false });
}

#[test]
fn recipe_is_deterministic() {
    assert_eq!(get_config_options(true), get_config_options(true));
    assert_eq!(get_config_options(false), get_config_options(false));
}

#[test]
fn module_config_is_common_js_non_strict() {
    let m = get_module_config();
    let ModuleConversion::CommonJs(c) = m;
    assert!(!c.strict);
    assert!(!c.strict_mode);
    assert!(!c.no_interop);
}

#[test]
fn jsx_pass_runs_before_module_conversion() {
    let r = get_config_options(false);
    let passes = rewrite_passes(&r);
    assert_eq!(passes, vec![PassKind::ReactJsx, PassKind::ConvertModules]);
    let r = get_config_options(true);
    let passes = rewrite_passes(&r);
    assert_eq!(passes, vec![PassKind::ReactJsx, PassKind::ConvertModules]);
}

#[test]
fn typescript_extensions_are_recognized() {
    assert!(has_typescript_extension("f.ts"));
    assert!(has_typescript_extension("f.tsx"));
    assert!(has_typescript_extension(".ts"));
    assert!(!has_typescript_extension("f.js"));
    assert!(!has_typescript_extension("f.jsx"));
    assert!(!has_typescript_extension("fts"));
    assert!(!has_typescript_extension(""));
    assert!(!has_typescript_extension("f.ts.bak"));
}

#[test]
fn dialect_from_file_name() {
    let d = select_syntax(&Some("a.ts".to_string()), None);
    assert_eq!(d, SyntaxDialect::TypeScript { tsx: true });
    let d = select_syntax(&Some("a.tsx".to_string()), None);
    assert_eq!(d, SyntaxDialect::TypeScript { tsx: true });
    let d = select_syntax(&Some("a.js".to_string()), None);
    assert_eq!(d, SyntaxDialect::EcmaScript { jsx: true });
    let d = select_syntax(&None, None);
    assert_eq!(d, SyntaxDialect::EcmaScript { jsx: true });
    let d = select_syntax(&Some("a.mystery".to_string()), None);
    assert_eq!(d, SyntaxDialect::EcmaScript { jsx: true });
}

#[test]
fn dialect_hint_wins() {
    let d = select_syntax(&Some("a.js".to_string()), Some(true));
    assert_eq!(d, SyntaxDialect::TypeScript { tsx: true });
    let d = select_syntax(&Some("a.ts".to_string()), Some(false));
    assert_eq!(d, SyntaxDialect::EcmaScript { jsx: true });
}

#[test]
fn typescript_syntax_needs_typescript_dialect() {
    let code = "const x: number = 1; export default x;";
    let ts = SyntaxDialect::TypeScript { tsx: true };
    let es = SyntaxDialect::EcmaScript { jsx: true };
    assert!(check_parses(code, &ts).is_ok());
    let err = check_parses(code, &es);
    assert!(err.is_err());
    assert!(!err.unwrap_err().message.is_empty());
}

#[test]
fn jsx_parses_under_both_dialects() {
    let code = "const a = <div>hi</div>; export default a;";
    assert!(check_parses(code, &SyntaxDialect::EcmaScript { jsx: true }).is_ok());
    assert!(check_parses(code, &SyntaxDialect::TypeScript { tsx: true }).is_ok());
}

#[test]
fn imports_and_dynamic_imports_parse() {
    let code = "import x from './a'; import('./later'); export default x;";
    assert!(check_parses(code, &SyntaxDialect::EcmaScript { jsx: true }).is_ok());
}

#[test]
fn broken_source_is_rejected_with_position() {
    let code = "const =\nconst =";
    let r = check_parses(code, &SyntaxDialect::EcmaScript { jsx: true });
    let e = r.unwrap_err();
    assert!(!e.message.is_empty());
    assert!(e.line <= 1);
}

#[test]
fn locate_counts_lines_and_columns() {
    let code = "ab\ncd\n\nef";
    assert_eq!(locate(code, 0), (0, 0));
    assert_eq!(locate(code, 1), (0, 1));
    assert_eq!(locate(code, 2), (0, 2));
    assert_eq!(locate(code, 3), (1, 0));
    assert_eq!(locate(code, 4), (1, 1));
    assert_eq!(locate(code, 6), (2, 0));
    assert_eq!(locate(code, 7), (3, 0));
    assert_eq!(locate(code, 9), (3, 2));
    assert_eq!(locate(code, 100), (3, 2));
}

fn input(code: &str, file_name: Option<&str>) -> MetroJSTransformerInput {
    MetroJSTransformerInput {
        code: code.to_string(),
        file_name: file_name.map(|f| f.to_string()),
        global_prefix: None,
    }
}

#[test]
fn locate_counts_columns_in_bytes() {
    // 'e' with an accent takes two bytes; the newline sits at byte 3.
    let code = "a\u{e9}\nb";
    assert_eq!(locate(code, 3), (0, 3));
    assert_eq!(locate(code, 4), (1, 0));
    assert_eq!(locate(code, 5), (1, 1));
}

#[test]
fn prepare_pipeline_gates_on_the_selected_dialect() {
    let ts_code = "const x: number = 1; export default x;";
    let ok = prepare_pipeline(&input(ts_code, Some("f.ts")), None);
    let recipe = ok.unwrap();
    assert_eq!(recipe, get_config_options(true));
    let err = prepare_pipeline(&input(ts_code, Some("f.js")), None);
    assert!(err.is_err());
    let ok = prepare_pipeline(&input("1;", None), None);
    assert_eq!(ok.unwrap(), get_config_options(false));
}
