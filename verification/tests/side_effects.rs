use ecma_module_view::module_id::join_segments;
use ecma_module_view::module_id::normalized_segments;
use ecma_module_view::module_id::relative_path;
use ecma_module_view::module_id::split_segments;
use ecma_module_view::module_id::way_between_segments;
use ecma_module_view::options::answer_of_pattern;
use ecma_module_view::options::InnerOptions;
use ecma_module_view::options::ModuleSideEffects;
use ecma_module_view::options::ModuleType;
use ecma_module_view::options::TreeshakeOptions;
use ecma_module_view::package_json::glob_match_with_normalized_pattern;
use ecma_module_view::package_json::PackageJson;
use ecma_module_view::package_json::SideEffects;
use ecma_module_view::side_effects::check_manifest_layer;
use ecma_module_view::side_effects::check_policy_layers;
use ecma_module_view::side_effects::determine_side_effects;
use ecma_module_view::side_effects::DeterminedSideEffects;
use ecma_module_view::side_effects::HookSideEffects;
use ecma_module_view::stmt_info::has_side_effect_stmt;
use ecma_module_view::stmt_info::StmtInfo;

fn stmt(side_effect: bool) -> StmtInfo {
    StmtInfo { side_effect, declared_symbols: vec![], referenced_symbols: vec![], import_records: vec![] }
}

fn on() -> TreeshakeOptions {
    TreeshakeOptions::Options(InnerOptions { module_side_effects: ModuleSideEffects::Boolean(true) })
}

fn manifest(path: &str, side_effects: Option<SideEffects>) -> Option<PackageJson> {
    Some(PackageJson { path: path.to_string(), side_effects })
}

fn patterns(list: &[&str]) -> Option<SideEffects> {
    Some(SideEffects::Patterns(list.iter().map(|p| p.to_string()).collect()))
}

#[test]
fn stylesheet_wins_over_hook_and_manifest() {
    let pkg = manifest("/pkg/package.json", Some(SideEffects::Flag(false)));
    let verdict = determine_side_effects(
        &on(),
        &ModuleType::Css,
        Some(HookSideEffects::False),
        "style.css",
        &pkg,
        "/pkg/style.css",
        &vec![stmt(false)],
    );
    assert_eq!(verdict, DeterminedSideEffects::Analyzed(true));
}

#[test]
fn stylesheet_wins_over_every_hook() {
    for hook in [None, Some(HookSideEffects::True), Some(HookSideEffects::False), Some(HookSideEffects::NoTreeshake)] {
        let verdict =
            determine_side_effects(&on(), &ModuleType::Css, hook, "a.css", &None, "/w/a.css", &vec![]);
        assert_eq!(verdict, DeterminedSideEffects::Analyzed(true));
    }
}

#[test]
fn disabled_treeshake_gives_no_treeshake_for_every_module() {
    let off = TreeshakeOptions::Boolean(false);
    let pkg = manifest("/pkg/package.json", Some(SideEffects::Flag(false)));
    for hook in [None, Some(HookSideEffects::True), Some(HookSideEffects::False), Some(HookSideEffects::NoTreeshake)] {
        for module_type in [ModuleType::Js, ModuleType::Css, ModuleType::Json] {
            let verdict = determine_side_effects(
                &off,
                &module_type,
                hook,
                "a.js",
                &pkg,
                "/pkg/a.js",
                &vec![stmt(false)],
            );
            assert_eq!(verdict, DeterminedSideEffects::NoTreeshake);
        }
    }
}

#[test]
fn hook_false_skips_manifest_and_analysis() {
    let pkg = manifest("/pkg/package.json", Some(SideEffects::Flag(true)));
    let verdict = determine_side_effects(
        &on(),
        &ModuleType::Js,
        Some(HookSideEffects::False),
        "a.js",
        &pkg,
        "/pkg/a.js",
        &vec![stmt(true)],
    );
    assert_eq!(verdict, DeterminedSideEffects::UserDefined(false));
}

#[test]
fn hook_no_treeshake_is_final() {
    let verdict = determine_side_effects(
        &on(),
        &ModuleType::Js,
        Some(HookSideEffects::NoTreeshake),
        "a.js",
        &None,
        "/pkg/a.js",
        &vec![stmt(false)],
    );
    assert_eq!(verdict, DeterminedSideEffects::NoTreeshake);
}

#[test]
fn hook_true_leaves_the_answer_to_the_manifest() {
    let pkg = manifest("/pkg/package.json", Some(SideEffects::Flag(false)));
    let verdict = determine_side_effects(
        &on(),
        &ModuleType::Js,
        Some(HookSideEffects::True),
        "a.js",
        &pkg,
        "/pkg/a.js",
        &vec![stmt(true)],
    );
    assert_eq!(verdict, DeterminedSideEffects::UserDefined(false));
}

#[test]
fn hook_true_without_manifest_is_analyzed() {
    let with = determine_side_effects(
        &on(),
        &ModuleType::Js,
        Some(HookSideEffects::True),
        "a.js",
        &None,
        "/pkg/a.js",
        &vec![stmt(false), stmt(true)],
    );
    assert_eq!(with, DeterminedSideEffects::Analyzed(true));
    let without = determine_side_effects(
        &on(),
        &ModuleType::Js,
        Some(HookSideEffects::True),
        "a.js",
        &None,
        "/pkg/a.js",
        &vec![stmt(false), stmt(false)],
    );
    assert_eq!(without, DeterminedSideEffects::Analyzed(false));
}

#[test]
fn hook_true_on_stylesheet_has_side_effects_without_any_statement() {
    let verdict = determine_side_effects(
        &on(),
        &ModuleType::Css,
        Some(HookSideEffects::True),
        "a.css",
        &None,
        "/pkg/a.css",
        &vec![],
    );
    assert!(verdict.has_side_effects());
    assert_eq!(verdict, DeterminedSideEffects::Analyzed(true));
}

#[test]
fn upper_layers_do_not_depend_on_statements() {
    let pkg = manifest("/pkg/package.json", Some(SideEffects::Flag(true)));
    let a = determine_side_effects(&on(), &ModuleType::Js, None, "a.js", &pkg, "/pkg/a.js", &vec![stmt(false)]);
    let b = determine_side_effects(&on(), &ModuleType::Js, None, "a.js", &pkg, "/pkg/a.js", &vec![stmt(true)]);
    assert_eq!(a, DeterminedSideEffects::UserDefined(true));
    assert_eq!(a, b);
}

#[test]
fn options_that_rule_out_side_effects_skip_analysis() {
    let options =
        TreeshakeOptions::Options(InnerOptions { module_side_effects: ModuleSideEffects::Boolean(false) });
    let verdict =
        determine_side_effects(&options, &ModuleType::Js, None, "a.js", &None, "/w/a.js", &vec![stmt(true)]);
    assert_eq!(verdict, DeterminedSideEffects::UserDefined(false));
}

#[test]
fn options_are_not_asked_when_a_hook_has_spoken() {
    let options =
        TreeshakeOptions::Options(InnerOptions { module_side_effects: ModuleSideEffects::Boolean(false) });
    let verdict = determine_side_effects(
        &options,
        &ModuleType::Js,
        Some(HookSideEffects::True),
        "a.js",
        &None,
        "/w/a.js",
        &vec![stmt(true)],
    );
    assert_eq!(verdict, DeterminedSideEffects::Analyzed(true));
}

#[test]
fn treeshake_switched_on_lets_every_module_have_side_effects() {
    let verdict = determine_side_effects(
        &TreeshakeOptions::Boolean(true),
        &ModuleType::Js,
        None,
        "a.js",
        &None,
        "/w/a.js",
        &vec![stmt(false)],
    );
    assert_eq!(verdict, DeterminedSideEffects::Analyzed(false));
}

#[test]
fn regex_selects_the_modules_with_side_effects() {
    let rule = ModuleSideEffects::Regex("^src/polyfill".to_string());
    assert!(rule.resolve("src/polyfill/a.js"));
    assert!(!rule.resolve("src/lib/a.js"));
    let options = TreeshakeOptions::Options(InnerOptions { module_side_effects: rule });
    let kept = determine_side_effects(
        &options,
        &ModuleType::Js,
        None,
        "src/polyfill/a.js",
        &None,
        "/w/src/polyfill/a.js",
        &vec![stmt(true)],
    );
    assert_eq!(kept, DeterminedSideEffects::Analyzed(true));
    let dropped = determine_side_effects(
        &options,
        &ModuleType::Js,
        None,
        "src/lib/a.js",
        &None,
        "/w/src/lib/a.js",
        &vec![stmt(true)],
    );
    assert_eq!(dropped, DeterminedSideEffects::UserDefined(false));
}

#[test]
fn regex_that_does_not_compile_rules_nothing_out() {
    let rule = ModuleSideEffects::Regex("(".to_string());
    assert!(rule.resolve("anything"));
}

#[test]
fn glob_is_relative_to_the_manifest() {
    let pkg = manifest("/pkg/package.json", patterns(&["./foo.js"]));
    assert_eq!(check_manifest_layer(&pkg, "/pkg/foo.js"), Some(DeterminedSideEffects::UserDefined(true)));
    assert_eq!(
        check_manifest_layer(&pkg, "/other/pkg2/foo.js"),
        Some(DeterminedSideEffects::UserDefined(false))
    );
}

#[test]
fn glob_relativity_through_the_whole_resolver() {
    let pkg = manifest("/pkg/package.json", patterns(&["./foo.js"]));
    let inside =
        determine_side_effects(&on(), &ModuleType::Js, None, "foo.js", &pkg, "/pkg/foo.js", &vec![stmt(false)]);
    assert_eq!(inside, DeterminedSideEffects::UserDefined(true));
    let outside = determine_side_effects(
        &on(),
        &ModuleType::Js,
        None,
        "../other/pkg2/foo.js",
        &pkg,
        "/other/pkg2/foo.js",
        &vec![stmt(true)],
    );
    assert_eq!(outside, DeterminedSideEffects::UserDefined(false));
}

#[test]
fn manifest_without_field_has_no_opinion() {
    let pkg = manifest("/pkg/package.json", None);
    assert_eq!(check_manifest_layer(&pkg, "/pkg/foo.js"), None);
    assert_eq!(check_manifest_layer(&None, "/pkg/foo.js"), None);
    let verdict =
        determine_side_effects(&on(), &ModuleType::Js, None, "foo.js", &pkg, "/pkg/foo.js", &vec![stmt(true)]);
    assert_eq!(verdict, DeterminedSideEffects::Analyzed(true));
}

#[test]
fn manifest_without_directory_has_no_opinion() {
    let pkg = manifest("/", Some(SideEffects::Flag(false)));
    assert_eq!(check_manifest_layer(&pkg, "/pkg/foo.js"), None);
}

#[test]
fn manifest_flag_answers_for_every_file() {
    let pkg = manifest("/pkg/package.json", Some(SideEffects::Flag(false)));
    assert_eq!(check_manifest_layer(&pkg, "/pkg/a/b.js"), Some(DeterminedSideEffects::UserDefined(false)));
    assert_eq!(check_manifest_layer(&pkg, "virtual:mod"), Some(DeterminedSideEffects::UserDefined(false)));
}

#[test]
fn manifest_single_pattern() {
    let pkg = manifest("/pkg/package.json", Some(SideEffects::Pattern("src/*.css".to_string())));
    assert_eq!(check_manifest_layer(&pkg, "/pkg/src/a.css"), Some(DeterminedSideEffects::UserDefined(true)));
    assert_eq!(check_manifest_layer(&pkg, "/pkg/src/a.js"), Some(DeterminedSideEffects::UserDefined(false)));
}

#[test]
fn manifest_any_of_several_patterns() {
    let pkg = manifest("/pkg/package.json", patterns(&["./a.js", "./lib/b.js"]));
    assert_eq!(check_manifest_layer(&pkg, "/pkg/lib/b.js"), Some(DeterminedSideEffects::UserDefined(true)));
    assert_eq!(check_manifest_layer(&pkg, "/pkg/lib/c.js"), Some(DeterminedSideEffects::UserDefined(false)));
    let none = manifest("/pkg/package.json", patterns(&[]));
    assert_eq!(check_manifest_layer(&none, "/pkg/a.js"), Some(DeterminedSideEffects::UserDefined(false)));
}

#[test]
fn pattern_without_slash_matches_anywhere_in_the_package() {
    assert!(glob_match_with_normalized_pattern("foo.js", "foo.js"));
    assert!(glob_match_with_normalized_pattern("foo.js", "a/b/foo.js"));
    assert!(glob_match_with_normalized_pattern("*.css", "styles/main.css"));
    assert!(!glob_match_with_normalized_pattern("foo.js", "a/b/bar.js"));
}

#[test]
fn pattern_with_slash_is_a_path_from_the_package() {
    assert!(glob_match_with_normalized_pattern("./foo.js", "foo.js"));
    assert!(glob_match_with_normalized_pattern("././foo.js", "foo.js"));
    assert!(!glob_match_with_normalized_pattern("./foo.js", "a/foo.js"));
    assert!(glob_match_with_normalized_pattern("./src/**/*.js", "src/a/b.js"));
    assert!(!glob_match_with_normalized_pattern("src/*.js", "lib/b.js"));
}

#[test]
fn relative_path_of_absolute_paths() {
    assert_eq!(relative_path("/pkg/foo.js", "/pkg"), "foo.js");
    assert_eq!(relative_path("/pkg/lib/foo.js", "/pkg"), "lib/foo.js");
    assert_eq!(relative_path("/other/pkg2/foo.js", "/pkg"), "../other/pkg2/foo.js");
}

#[test]
fn relative_path_is_taken_of_normalised_paths() {
    assert_eq!(relative_path("/pkg/./lib/../foo.js", "/pkg/"), "foo.js");
    assert_eq!(relative_path("/a/b/c/d", "/a/b/f/g"), "../../c/d");
    assert_eq!(relative_path("/pkg", "/pkg"), "");
    assert_eq!(relative_path("/pkg", "/pkg/lib"), "..");
    assert_eq!(relative_path("/pkg/foo.js", "/"), "pkg/foo.js");
}

#[test]
fn paths_are_split_and_joined_at_slashes() {
    assert_eq!(split_segments("/a//b/c/"), vec!["a".to_string(), "b".to_string(), "c".to_string()]);
    assert_eq!(split_segments(""), Vec::<String>::new());
    assert_eq!(split_segments("/"), Vec::<String>::new());
    assert_eq!(split_segments("plain"), vec!["plain".to_string()]);
    assert_eq!(normalized_segments("/a/./b/../c"), vec!["a".to_string(), "c".to_string()]);
    assert_eq!(join_segments(&vec!["..".to_string(), "a".to_string(), "b.js".to_string()]), "../a/b.js");
    assert_eq!(join_segments(&vec![]), "");
    assert_eq!(join_segments(&vec!["a".to_string()]), "a");
    let path = vec!["a".to_string(), "b".to_string(), "c.js".to_string()];
    let base = vec!["a".to_string(), "x".to_string(), "y".to_string()];
    assert_eq!(
        way_between_segments(&path, &base),
        vec!["..".to_string(), "..".to_string(), "b".to_string(), "c.js".to_string()]
    );
    assert_eq!(way_between_segments(&path, &path), Vec::<String>::new());
}

#[test]
fn pattern_that_finds_nothing_rules_the_module_out() {
    assert!(answer_of_pattern(Some(true)));
    assert!(!answer_of_pattern(Some(false)));
    assert!(answer_of_pattern(None));
}

#[test]
fn relative_path_leaves_other_ids_alone() {
    assert_eq!(relative_path("virtual:mod", "/pkg"), "virtual:mod");
    assert_eq!(relative_path("/pkg/foo.js", "pkg"), "/pkg/foo.js");
}

#[test]
fn policy_layers_alone() {
    assert_eq!(
        check_policy_layers(&TreeshakeOptions::Boolean(false), &ModuleType::Js, None, "a.js"),
        Some(DeterminedSideEffects::NoTreeshake)
    );
    assert_eq!(
        check_policy_layers(&on(), &ModuleType::Css, None, "a.css"),
        Some(DeterminedSideEffects::Analyzed(true))
    );
    assert_eq!(check_policy_layers(&on(), &ModuleType::Js, None, "a.js"), None);
    assert_eq!(check_policy_layers(&on(), &ModuleType::Js, Some(HookSideEffects::True), "a.js"), None);
    assert_eq!(
        check_policy_layers(&on(), &ModuleType::Custom("vue".to_string()), Some(HookSideEffects::False), "a.vue"),
        Some(DeterminedSideEffects::UserDefined(false))
    );
}

#[test]
fn analysis_finds_any_statement_with_side_effect() {
    assert!(!has_side_effect_stmt(&vec![]));
    assert!(!has_side_effect_stmt(&vec![stmt(false), stmt(false)]));
    assert!(has_side_effect_stmt(&vec![stmt(false), stmt(false), stmt(true)]));
}

#[test]
fn verdict_says_whether_the_module_is_kept() {
    assert!(DeterminedSideEffects::Analyzed(true).has_side_effects());
    assert!(!DeterminedSideEffects::Analyzed(false).has_side_effects());
    assert!(DeterminedSideEffects::UserDefined(true).has_side_effects());
    assert!(!DeterminedSideEffects::UserDefined(false).has_side_effects());
    assert!(DeterminedSideEffects::NoTreeshake.has_side_effects());
}

#[test]
fn verdict_is_the_same_on_every_run() {
    let pkg = manifest("/pkg/package.json", patterns(&["./lib/*.js"]));
    let run = || {
        determine_side_effects(
            &on(),
            &ModuleType::Js,
            Some(HookSideEffects::True),
            "lib/a.js",
            &pkg,
            "/pkg/lib/a.js",
            &vec![stmt(false)],
        )
    };
    assert_eq!(run(), run());
    assert_eq!(run(), DeterminedSideEffects::UserDefined(true));
}
