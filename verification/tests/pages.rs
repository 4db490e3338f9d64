use property_admin::pages::{DemoPage, DemoPagePrerenderer, FeaturePage, FeaturePagePrerenderer};

#[test]
fn demo_page_type_is_prefixed_slug() {
    let p = DemoPagePrerenderer::new(DemoPage { slug: "tour".to_string(), title: "Tour".to_string() });
    assert_eq!(p.page_type(), "demo-page-tour");
    assert_eq!(p.priority(), 50);
    assert_eq!(p.template_name(), "demo-page");
    assert_eq!(p.output_path(), "demo/tour/index.html");
    assert_eq!(p.page().title, "Tour");
}

#[test]
fn demo_page_with_empty_slug_is_the_index() {
    let p = DemoPagePrerenderer::new(DemoPage { slug: String::new(), title: "Demo".to_string() });
    assert_eq!(p.page_type(), "demo-page-");
    assert_eq!(p.output_path(), "demo/index.html");
}

#[test]
fn feature_page_paths() {
    let p = FeaturePagePrerenderer::new(FeaturePage { slug: "audit".to_string(), title: "Audit".to_string() });
    assert_eq!(p.page_type(), "feature-page-audit");
    assert_eq!(p.priority(), 50);
    assert_eq!(p.template_name(), "feature-page");
    assert_eq!(p.output_path(), "features/audit/index.html");
}
