use prim::color::Color;
use prim::node::{Background, HelpGroup, HelpItem, Options, Rgb, Theme};
use prim::options;

fn node_options() -> Options {
    Options {
        title: Some("Help center".to_string()),
        theme: Theme { background: Some(Background::Color(Rgb { r: 245, g: 245, b: 250 })) },
        groups: vec![
            HelpGroup {
                name: "Basics".to_string(),
                list: vec![
                    HelpItem { name: "Subscribe".to_string(), desc: "Manage subscriptions".to_string(), icon: None },
                    HelpItem { name: "Tokens".to_string(), desc: "Access tokens".to_string(), icon: Some(vec![1, 2]) },
                ],
            },
            HelpGroup { name: "More".to_string(), list: vec![] },
        ],
    }
}

#[test]
fn rgb_becomes_opaque_colour() {
    let b = Background::Color(Rgb { r: 1, g: 2, b: 3 }).into_help();
    assert_eq!(b, options::Background::Color(Color::from_argb(255, 1, 2, 3)));
}

#[test]
fn colour_loses_alpha() {
    let b = Background::from_help(options::Background::Color(Color::from_argb(128, 1, 2, 3)));
    assert_eq!(b, Background::Color(Rgb { r: 1, g: 2, b: 3 }));
    // Back again the colour is opaque, no longer the translucent original.
    assert_eq!(b.into_help(), options::Background::Color(Color::from_argb(255, 1, 2, 3)));
}

#[test]
fn image_bytes_are_kept() {
    let b = Background::Image(vec![4, 5, 6]).into_help();
    assert_eq!(b, options::Background::Image(vec![4, 5, 6]));
    assert_eq!(Background::from_help(b), Background::Image(vec![4, 5, 6]));
}

#[test]
fn theme_conversion() {
    assert_eq!(Theme { background: None }.into_help(), options::Theme { background: None });
    assert_eq!(Theme::from_help(options::Theme { background: None }), Theme { background: None });
}

#[test]
fn item_conversion_keeps_fields() {
    let i = HelpItem { name: "n".to_string(), desc: "d".to_string(), icon: Some(vec![7]) }.into_help();
    assert_eq!(i, options::HelpItem { name: "n".to_string(), desc: "d".to_string(), icon: Some(vec![7]) });
    assert_eq!(
        HelpItem::from_help(i),
        HelpItem { name: "n".to_string(), desc: "d".to_string(), icon: Some(vec![7]) }
    );
}

#[test]
fn group_conversion_keeps_order() {
    let g = node_options().groups.remove(0).into_help();
    assert_eq!(g.name, "Basics");
    assert_eq!(g.list.len(), 2);
    assert_eq!(g.list[0].name, "Subscribe");
    assert_eq!(g.list[1].icon, Some(vec![1, 2]));
    let back = HelpGroup::from_help(g);
    assert_eq!(back, node_options().groups.remove(0));
}

#[test]
fn options_round_trip_from_node() {
    let help = node_options().into_help();
    assert_eq!(help.title, Some("Help center".to_string()));
    assert_eq!(help.theme.background, Some(options::Background::Color(Color::from_argb(255, 245, 245, 250))));
    assert_eq!(help.groups.len(), 2);
    assert_eq!(Options::from_help(help), node_options());
}

#[test]
fn opaque_options_round_trip_from_help() {
    let help = node_options().into_help();
    let again = node_options().into_help();
    assert_eq!(Options::from_help(help).into_help(), again);
}

#[test]
fn translucent_options_do_not_round_trip() {
    let help = options::Options {
        title: None,
        theme: options::Theme { background: Some(options::Background::Color(Color::from_argb(0, 9, 9, 9))) },
        groups: vec![],
    };
    let back = Options::from_help(help).into_help();
    assert_eq!(back.theme.background, Some(options::Background::Color(Color::from_argb(255, 9, 9, 9))));
}
