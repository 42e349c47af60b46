use prim::color::Color;
use prim::options::{Background, HelpGroup, HelpItem, Options, Theme};

fn item(name: &str, icon: Option<Vec<u8>>) -> HelpItem {
    HelpItem { name: name.to_string(), desc: format!("{} desc", name), icon }
}

#[test]
fn default_background_is_light_grey() {
    assert_eq!(Background::default(), Background::Color(Color::from_argb(255, 245, 245, 250)));
    match Background::default() {
        Background::Color(c) => assert_eq!(c.argb, 0xfff5_f5fa),
        Background::Image(_) => panic!("default background is a colour"),
    }
}

#[test]
fn theme_without_background_uses_default() {
    let theme = Theme::default();
    assert_eq!(theme.background, None);
    assert_eq!(theme.background_or_default(), Background::default());
}

#[test]
fn theme_background_is_kept() {
    let theme = Theme { background: Some(Background::Image(vec![1, 2, 3])) };
    assert_eq!(theme.background_or_default(), Background::Image(vec![1, 2, 3]));
    let theme = Theme { background: Some(Background::Color(Color::from_rgb(1, 2, 3))) };
    assert_eq!(theme.background_or_default(), Background::Color(Color::from_rgb(1, 2, 3)));
}

#[test]
fn background_clone_is_equal() {
    let b = Background::Image(vec![9, 8, 7]);
    assert_eq!(b.clone(), b);
}

#[test]
fn icon_shown_only_for_nonempty_data() {
    assert!(!item("a", None).has_icon());
    assert!(!item("a", Some(vec![])).has_icon());
    assert!(item("a", Some(vec![b'<'])).has_icon());
}

#[test]
fn group_slots_follow_title() {
    let groups = vec![
        HelpGroup { name: "g0".to_string(), list: vec![] },
        HelpGroup { name: "g1".to_string(), list: vec![item("x", None)] },
    ];
    let mut options = Options { title: None, theme: Theme::default(), groups };
    assert_eq!(options.group_slot(0), 1);
    assert_eq!(options.group_slot(1), 2);
    options.title = Some("Help".to_string());
    assert_eq!(options.group_slot(0), 2);
    assert_eq!(options.group_slot(1), 3);
}
