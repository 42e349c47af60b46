use vstd::prelude::*;

use crate::color::{lemma_channels_of_pack, lemma_pack_of_channels, Color};
use crate::options;

verus! {

/// An opaque colour as the binding side passes it: three 8-bit channels.
#[derive(Clone, Copy, Debug, PartialEq, Eq, Structural)]
pub struct Rgb {
    pub r: u8,
    pub g: u8,
    pub b: u8,
}

/// The renderer colour of a binding colour: the same channels, fully opaque.
pub open spec fn rgb_to_color(c: Rgb) -> Color {
    Color::spec_from_argb(255, c.r, c.g, c.b)
}

/// The binding colour of a renderer colour: its red, green and blue; alpha is dropped.
pub open spec fn color_to_rgb(c: Color) -> Rgb {
    Rgb { r: c.red(), g: c.green(), b: c.blue() }
}

/// What fills the page behind the cards, as the binding side passes it.
#[derive(Debug, PartialEq, Eq)]
pub enum Background {
    /// Encoded image bytes.
    Image(Vec<u8>),
    /// A solid colour.
    Color(Rgb),
}

/// The contents of a binding-side `Background`.
pub enum BackgroundView {
    Image(Seq<u8>),
    Color(Rgb),
}

impl View for Background {
    type V = BackgroundView;

    open spec fn view(&self) -> BackgroundView {
        match self {
            Background::Image(data) => BackgroundView::Image(data@),
            Background::Color(c) => BackgroundView::Color(*c),
        }
    }
}

/// Binding background to renderer background: bytes kept, colour made opaque.
pub open spec fn background_to_help(b: BackgroundView) -> options::BackgroundView {
    match b {
        BackgroundView::Image(data) => options::BackgroundView::Image(data),
        BackgroundView::Color(c) => options::BackgroundView::Color(rgb_to_color(c)),
    }
}

/// Renderer background to binding background: bytes kept, alpha dropped.
pub open spec fn background_from_help(b: options::BackgroundView) -> BackgroundView {
    match b {
        options::BackgroundView::Image(data) => BackgroundView::Image(data),
        options::BackgroundView::Color(c) => BackgroundView::Color(color_to_rgb(c)),
    }
}

impl Background {
    /// The binding form of a renderer background.
    pub fn from_help(value: options::Background) -> (b: Background)
        ensures
            b@ == background_from_help(value@),
    {
        match value {
            options::Background::Image(data) => Background::Image(data),
            options::Background::Color(c) => Background::Color(Rgb { r: c.r(), g: c.g(), b: c.b() }),
        }
    }

    /// The renderer form of this background.
    pub fn into_help(self) -> (b: options::Background)
        ensures
            b@ == background_to_help(self@),
    {
        match self {
            Background::Image(data) => options::Background::Image(data),
            Background::Color(c) => options::Background::Color(Color::from_rgb(c.r, c.g, c.b)),
        }
    }
}

/// Visual settings as the binding side passes them.
#[derive(Debug, PartialEq, Eq)]
pub struct Theme {
    pub background: Option<Background>,
}

/// The contents of a binding-side `Theme`.
pub struct ThemeView {
    pub background: Option<BackgroundView>,
}

impl View for Theme {
    type V = ThemeView;

    open spec fn view(&self) -> ThemeView {
        ThemeView {
            background: match self.background {
                Some(b) => Some(b@),
                None => None,
            },
        }
    }
}

/// Binding theme to renderer theme.
pub open spec fn theme_to_help(t: ThemeView) -> options::ThemeView {
    options::ThemeView {
        background: match t.background {
            Some(b) => Some(background_to_help(b)),
            None => None,
        },
    }
}

/// Renderer theme to binding theme.
pub open spec fn theme_from_help(t: options::ThemeView) -> ThemeView {
    ThemeView {
        background: match t.background {
            Some(b) => Some(background_from_help(b)),
            None => None,
        },
    }
}

impl Theme {
    /// The binding form of a renderer theme.
    pub fn from_help(value: options::Theme) -> (t: Theme)
        ensures
            t@ == theme_from_help(value@),
    {
        match value.background {
            Some(b) => Theme { background: Some(Background::from_help(b)) },
            None => Theme { background: None },
        }
    }

    /// The renderer form of this theme.
    pub fn into_help(self) -> (t: options::Theme)
        ensures
            t@ == theme_to_help(self@),
    {
        match self.background {
            Some(b) => options::Theme { background: Some(b.into_help()) },
            None => options::Theme { background: None },
        }
    }
}

/// One card as the binding side passes it.
#[derive(Debug, PartialEq, Eq)]
pub struct HelpItem {
    pub name: String,
    pub desc: String,
    pub icon: Option<Vec<u8>>,
}

/// The contents of a binding-side `HelpItem`.
pub struct HelpItemView {
    pub name: Seq<char>,
    pub desc: Seq<char>,
    pub icon: Option<Seq<u8>>,
}

impl View for HelpItem {
    type V = HelpItemView;

    open spec fn view(&self) -> HelpItemView {
        HelpItemView {
            name: self.name@,
            desc: self.desc@,
            icon: match self.icon {
                Some(data) => Some(data@),
                None => None,
            },
        }
    }
}

/// Binding card to renderer card: every field kept.
pub open spec fn item_to_help(i: HelpItemView) -> options::HelpItemView {
    options::HelpItemView { name: i.name, desc: i.desc, icon: i.icon }
}

/// Renderer card to binding card: every field kept.
pub open spec fn item_from_help(i: options::HelpItemView) -> HelpItemView {
    HelpItemView { name: i.name, desc: i.desc, icon: i.icon }
}

impl HelpItem {
    /// The binding form of a renderer card.
    pub fn from_help(value: options::HelpItem) -> (i: HelpItem)
        ensures
            i@ == item_from_help(value@),
    {
        HelpItem { name: value.name, desc: value.desc, icon: value.icon }
    }

    /// The renderer form of this card.
    pub fn into_help(self) -> (i: options::HelpItem)
        ensures
            i@ == item_to_help(self@),
    {
        options::HelpItem { name: self.name, desc: self.desc, icon: self.icon }
    }
}

/// A group of cards as the binding side passes it.
#[derive(Debug, PartialEq, Eq)]
pub struct HelpGroup {
    pub name: String,
    pub list: Vec<HelpItem>,
}

/// The contents of a binding-side `HelpGroup`.
pub struct HelpGroupView {
    pub name: Seq<char>,
    pub list: Seq<HelpItemView>,
}

impl View for HelpGroup {
    type V = HelpGroupView;

    open spec fn view(&self) -> HelpGroupView {
        HelpGroupView { name: self.name@, list: self.list@.map_values(|i: HelpItem| i@) }
    }
}

/// Binding group to renderer group: name kept, each card converted, order kept.
pub open spec fn group_to_help(g: HelpGroupView) -> options::HelpGroupView {
    options::HelpGroupView { name: g.name, list: g.list.map_values(|i: HelpItemView| item_to_help(i)) }
}

/// Renderer group to binding group: name kept, each card converted, order kept.
pub open spec fn group_from_help(g: options::HelpGroupView) -> HelpGroupView {
    HelpGroupView {
        name: g.name,
        list: g.list.map_values(|i: options::HelpItemView| item_from_help(i)),
    }
}

impl HelpGroup {
    /// The binding form of a renderer group.
    pub fn from_help(value: options::HelpGroup) -> (g: HelpGroup)
        ensures
            g@ == group_from_help(value@),
    {
        let ghost src = value.list@;
        let mut list: Vec<HelpItem> = Vec::new();
        for item in it: value.list.into_iter()
            invariant
                it.seq() == src,
                list@.len() == it.index(),
                forall|j: int| 0 <= j < list@.len() ==> #[trigger] list@[j]@ == item_from_help(src[j]@),
        {
            list.push(HelpItem::from_help(item));
        }
        let g = HelpGroup { name: value.name, list };
        assert(g@.list =~= group_from_help(value@).list);
        g
    }

    /// The renderer form of this group.
    pub fn into_help(self) -> (g: options::HelpGroup)
        ensures
            g@ == group_to_help(self@),
    {
        let ghost src = self.list@;
        let mut list: Vec<options::HelpItem> = Vec::new();
        for item in it: self.list.into_iter()
            invariant
                it.seq() == src,
                list@.len() == it.index(),
                forall|j: int| 0 <= j < list@.len() ==> #[trigger] list@[j]@ == item_to_help(src[j]@),
        {
            list.push(item.into_help());
        }
        let g = options::HelpGroup { name: self.name, list };
        assert(g@.list =~= group_to_help(self@).list);
        g
    }
}

/// Everything a help page shows, as the binding side passes it.
#[derive(Debug, PartialEq, Eq)]
pub struct Options {
    pub title: Option<String>,
    pub theme: Theme,
    pub groups: Vec<HelpGroup>,
}

/// The contents of a binding-side `Options`.
pub struct OptionsView {
    pub title: Option<Seq<char>>,
    pub theme: ThemeView,
    pub groups: Seq<HelpGroupView>,
}

impl View for Options {
    type V = OptionsView;

    open spec fn view(&self) -> OptionsView {
        OptionsView {
            title: match self.title {
                Some(t) => Some(t@),
                None => None,
            },
            theme: self.theme@,
            groups: self.groups@.map_values(|g: HelpGroup| g@),
        }
    }
}

/// Binding options to renderer options: title kept, theme and each group converted.
pub open spec fn options_to_help(o: OptionsView) -> options::OptionsView {
    options::OptionsView {
        title: o.title,
        theme: theme_to_help(o.theme),
        groups: o.groups.map_values(|g: HelpGroupView| group_to_help(g)),
    }
}

/// Renderer options to binding options: title kept, theme and each group converted.
pub open spec fn options_from_help(o: options::OptionsView) -> OptionsView {
    OptionsView {
        title: o.title,
        theme: theme_from_help(o.theme),
        groups: o.groups.map_values(|g: options::HelpGroupView| group_from_help(g)),
    }
}

impl Options {
    /// The binding form of renderer options.
    pub fn from_help(value: options::Options) -> (o: Options)
        ensures
            o@ == options_from_help(value@),
    {
        let ghost src = value.groups@;
        let mut groups: Vec<HelpGroup> = Vec::new();
        for group in it: value.groups.into_iter()
            invariant
                it.seq() == src,
                groups@.len() == it.index(),
                forall|j: int| 0 <= j < groups@.len() ==> #[trigger] groups@[j]@ == group_from_help(src[j]@),
        {
            groups.push(HelpGroup::from_help(group));
        }
        let o = Options { title: value.title, theme: Theme::from_help(value.theme), groups };
        assert(o@.groups =~= options_from_help(value@).groups);
        o
    }

    /// The renderer form of these options.
    pub fn into_help(self) -> (o: options::Options)
        ensures
            o@ == options_to_help(self@),
    {
        let ghost src = self.groups@;
        let mut groups: Vec<options::HelpGroup> = Vec::new();
        for group in it: self.groups.into_iter()
            invariant
                it.seq() == src,
                groups@.len() == it.index(),
                forall|j: int| 0 <= j < groups@.len() ==> #[trigger] groups@[j]@ == group_to_help(src[j]@),
        {
            groups.push(group.into_help());
        }
        let o = options::Options { title: self.title, theme: self.theme.into_help(), groups };
        assert(o@.groups =~= options_to_help(self@).groups);
        o
    }
}

/// A renderer background whose colour, if it has one, is fully opaque.
pub open spec fn background_is_opaque(b: options::BackgroundView) -> bool {
    match b {
        options::BackgroundView::Color(c) => c.is_opaque(),
        options::BackgroundView::Image(_) => true,
    }
}

/// Renderer options in which every colour is fully opaque.
pub open spec fn options_are_opaque(o: options::OptionsView) -> bool {
    match o.theme.background {
        Some(b) => background_is_opaque(b),
        None => true,
    }
}

/// Law: a binding colour survives the trip to a renderer colour and back.
pub proof fn lemma_rgb_round_trip(c: Rgb)
    ensures
        color_to_rgb(rgb_to_color(c)) == c,
        rgb_to_color(c).is_opaque(),
{
    lemma_channels_of_pack(255, c.r, c.g, c.b);
}

/// Law: an opaque renderer colour survives the trip to a binding colour and back.
pub proof fn lemma_color_round_trip(c: Color)
    requires
        c.is_opaque(),
    ensures
        rgb_to_color(color_to_rgb(c)) == c,
{
    lemma_pack_of_channels(c);
}

/// Law: binding options converted to renderer options and back are unchanged.
pub proof fn lemma_options_round_trip_from_node(o: OptionsView)
    ensures
        options_from_help(options_to_help(o)) == o,
{
    let back = options_from_help(options_to_help(o));
    match o.theme.background {
        Some(BackgroundView::Color(c)) => lemma_rgb_round_trip(c),
        _ => {},
    }
    assert forall|j: int| 0 <= j < o.groups.len() implies #[trigger] back.groups[j] == o.groups[j] by {
        let g = o.groups[j];
        assert(group_from_help(group_to_help(g)).list =~= g.list);
    }
    assert(back.groups =~= o.groups);
    assert(back.theme == o.theme);
}

/// Law: renderer options whose colours are opaque, converted to binding options and
/// back, are unchanged.
pub proof fn lemma_options_round_trip_from_help(o: options::OptionsView)
    requires
        options_are_opaque(o),
    ensures
        options_to_help(options_from_help(o)) == o,
{
    let back = options_to_help(options_from_help(o));
    match o.theme.background {
        Some(options::BackgroundView::Color(c)) => lemma_color_round_trip(c),
        _ => {},
    }
    assert forall|j: int| 0 <= j < o.groups.len() implies #[trigger] back.groups[j] == o.groups[j] by {
        let g = o.groups[j];
        assert(group_to_help(group_from_help(g)).list =~= g.list);
    }
    assert(back.groups =~= o.groups);
    assert(back.theme == o.theme);
}

/// Law: renderer options made from binding options have only opaque colours.
pub proof fn lemma_options_to_help_opaque(o: OptionsView)
    ensures
        options_are_opaque(options_to_help(o)),
{
    match o.theme.background {
        Some(BackgroundView::Color(c)) => lemma_rgb_round_trip(c),
        _ => {},
    }
}


/// Law: converting a background keeps image bytes unchanged and turns a binding colour
/// into the opaque colour with the same red, green and blue; the other way, image bytes
/// are kept and a colour keeps its red, green and blue.
pub proof fn lemma_background_conversion(b: BackgroundView, h: options::BackgroundView)
    ensures
        b matches BackgroundView::Image(d) ==> background_to_help(b) == options::BackgroundView::Image(d),
        b matches BackgroundView::Color(c) ==> (background_to_help(b) matches options::BackgroundView::Color(k)
            && k.alpha() == 255 && k.red() == c.r && k.green() == c.g && k.blue() == c.b),
        h matches options::BackgroundView::Image(d) ==> background_from_help(h) == BackgroundView::Image(d),
        h matches options::BackgroundView::Color(k) ==> background_from_help(h) == BackgroundView::Color(
            Rgb { r: k.red(), g: k.green(), b: k.blue() },
        ),
{
    if let BackgroundView::Color(c) = b {
        lemma_channels_of_pack(255, c.r, c.g, c.b);
    }
}

/// Law: a card keeps its name, description and icon through the conversion, both ways.
pub proof fn lemma_item_fields_kept(i: HelpItemView, h: options::HelpItemView)
    ensures
        item_to_help(i).name == i.name,
        item_to_help(i).desc == i.desc,
        item_to_help(i).icon == i.icon,
        item_from_help(h).name == h.name,
        item_from_help(h).desc == h.desc,
        item_from_help(h).icon == h.icon,
{
}

/// Law: a group keeps its name, its number of cards, and at every position the card
/// that stood there (same name, description and icon), both ways.
pub proof fn lemma_group_order_kept(g: HelpGroupView, h: options::HelpGroupView)
    ensures
        group_to_help(g).name == g.name,
        group_to_help(g).list.len() == g.list.len(),
        forall|j: int| 0 <= j < g.list.len() ==> {
            &&& (#[trigger] group_to_help(g).list[j]).name == g.list[j].name
            &&& group_to_help(g).list[j].desc == g.list[j].desc
            &&& group_to_help(g).list[j].icon == g.list[j].icon
        },
        group_from_help(h).name == h.name,
        group_from_help(h).list.len() == h.list.len(),
        forall|j: int| 0 <= j < h.list.len() ==> {
            &&& (#[trigger] group_from_help(h).list[j]).name == h.list[j].name
            &&& group_from_help(h).list[j].desc == h.list[j].desc
            &&& group_from_help(h).list[j].icon == h.list[j].icon
        },
{
}

/// Law: options keep their title, their number of groups, and at every position the
/// group that stood there with its name and its cards in order, both ways.
pub proof fn lemma_options_order_kept(o: OptionsView, h: options::OptionsView)
    ensures
        options_to_help(o).title == o.title,
        options_to_help(o).groups.len() == o.groups.len(),
        forall|j: int| 0 <= j < o.groups.len() ==> {
            &&& (#[trigger] options_to_help(o).groups[j]).name == o.groups[j].name
            &&& options_to_help(o).groups[j].list.len() == o.groups[j].list.len()
        },
        forall|j: int, k: int| 0 <= j < o.groups.len() && 0 <= k < o.groups[j].list.len() ==> {
            &&& (#[trigger] options_to_help(o).groups[j].list[k]).name == o.groups[j].list[k].name
            &&& options_to_help(o).groups[j].list[k].desc == o.groups[j].list[k].desc
            &&& options_to_help(o).groups[j].list[k].icon == o.groups[j].list[k].icon
        },
        options_from_help(h).title == h.title,
        options_from_help(h).groups.len() == h.groups.len(),
        forall|j: int| 0 <= j < h.groups.len() ==> {
            &&& (#[trigger] options_from_help(h).groups[j]).name == h.groups[j].name
            &&& options_from_help(h).groups[j].list.len() == h.groups[j].list.len()
        },
        forall|j: int, k: int| 0 <= j < h.groups.len() && 0 <= k < h.groups[j].list.len() ==> {
            &&& (#[trigger] options_from_help(h).groups[j].list[k]).name == h.groups[j].list[k].name
            &&& options_from_help(h).groups[j].list[k].desc == h.groups[j].list[k].desc
            &&& options_from_help(h).groups[j].list[k].icon == h.groups[j].list[k].icon
        },
{
}

/// Law: a theme keeps whether it names a background; a named image background keeps its
/// bytes, and a named colour keeps its red, green and blue (made opaque toward the
/// renderer), both ways.
pub proof fn lemma_theme_conversion(t: ThemeView, h: options::ThemeView)
    ensures
        theme_to_help(t).background is None <==> t.background is None,
        t.background matches Some(BackgroundView::Image(d))
            ==> theme_to_help(t).background == Some(options::BackgroundView::Image(d)),
        t.background matches Some(BackgroundView::Color(c)) ==> (theme_to_help(t).background
            matches Some(options::BackgroundView::Color(k)) && k.alpha() == 255 && k.red() == c.r
            && k.green() == c.g && k.blue() == c.b),
        theme_from_help(h).background is None <==> h.background is None,
        h.background matches Some(options::BackgroundView::Image(d))
            ==> theme_from_help(h).background == Some(BackgroundView::Image(d)),
        h.background matches Some(options::BackgroundView::Color(k))
            ==> theme_from_help(h).background == Some(
            BackgroundView::Color(Rgb { r: k.red(), g: k.green(), b: k.blue() }),
        ),
{
    if let Some(BackgroundView::Color(c)) = t.background {
        lemma_channels_of_pack(255, c.r, c.g, c.b);
    }
}

} // verus!
