use wallfetch::params::{compose, AspectRatio, Category};

fn tags(list: &[&str]) -> Vec<String> {
    list.iter().map(|s| s.to_string()).collect()
}

#[test]
fn compose_without_category_keeps_tags() {
    let params = compose(None, tags(&["forest", "night"]));
    assert_eq!(params.tags, tags(&["forest", "night"]));
    assert!(params.aspect_ratios.is_empty());
}

#[test]
fn compose_without_category_and_no_tags_is_empty() {
    let params = compose(None, Vec::new());
    assert!(params.tags.is_empty());
    assert!(params.aspect_ratios.is_empty());
}

#[test]
fn compose_appends_category_tags_in_order() {
    let category = Category {
        name: "nature".to_string(),
        tags: tags(&["landscape", "green"]),
        aspect_ratios: None,
    };
    let params = compose(Some(&category), tags(&["forest", "night"]));
    assert_eq!(params.tags, tags(&["forest", "night", "landscape", "green"]));
    assert!(params.aspect_ratios.is_empty());
}

#[test]
fn compose_keeps_duplicate_tags() {
    let category = Category {
        name: "nature".to_string(),
        tags: tags(&["forest"]),
        aspect_ratios: None,
    };
    let params = compose(Some(&category), tags(&["forest"]));
    assert_eq!(params.tags, tags(&["forest", "forest"]));
}

#[test]
fn compose_takes_category_aspect_ratios() {
    let category = Category {
        name: "wide".to_string(),
        tags: Vec::new(),
        aspect_ratios: Some(vec![
            AspectRatio { width: 16, height: 9 },
            AspectRatio { width: 21, height: 9 },
        ]),
    };
    let params = compose(Some(&category), Vec::new());
    assert_eq!(
        params.aspect_ratios,
        vec![AspectRatio { width: 16, height: 9 }, AspectRatio { width: 21, height: 9 }]
    );
}
