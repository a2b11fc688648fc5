use shared_kit::config::{ConfigMetadata, TemplateItem, TemplateKind};
use shared_kit::error::Error;
use shared_kit::matcher::MatcherError;
use shared_kit::transform::FileError;

fn item(kind: TemplateKind) -> TemplateItem {
    TemplateItem {
        kind,
        template: Some("./tpl".to_string()),
        repo: None,
        includes: None,
        excludes: None,
        template_vars: None,
        completed_script: None,
    }
}

#[test]
fn test_get_templates_filters_by_kind() {
    let meta = ConfigMetadata {
        templates: vec![
            ("app".to_string(), item(TemplateKind::Project)),
            ("mono".to_string(), item(TemplateKind::Monorepo)),
            ("lib".to_string(), item(TemplateKind::Package)),
            ("app2".to_string(), item(TemplateKind::Project)),
        ],
    };
    let projects = meta.get_templates(Some(TemplateKind::Project));
    let names: Vec<&str> = projects.iter().map(|p| p.0.as_str()).collect();
    assert_eq!(names, vec!["app", "app2"]);
}

#[test]
fn test_error_wraps_both_failure_kinds() {
    let fe = Error::from(FileError::NotDirectory("x".to_string()));
    assert!(matches!(fe, Error::FileUtils(FileError::NotDirectory(_))));
    let me = Error::from(MatcherError::NewGlob { value: "a[".to_string() });
    assert!(matches!(me, Error::Matcher(MatcherError::NewGlob { .. })));
}

#[test]
fn test_get_templates_without_kind_keeps_all() {
    let meta = ConfigMetadata {
        templates: vec![
            ("app".to_string(), item(TemplateKind::Project)),
            ("mono".to_string(), item(TemplateKind::Monorepo)),
        ],
    };
    let all = meta.get_templates(None);
    assert_eq!(all.len(), 2);
    assert_eq!(all[0].0, "app");
    assert_eq!(all[1].0, "mono");
}
