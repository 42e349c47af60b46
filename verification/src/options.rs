use vstd::prelude::*;

use crate::color::Color;

verus! {

/// What fills the page behind the cards.
#[derive(Debug, PartialEq, Eq)]
pub enum Background {
    /// An encoded image, scaled to cover the page.
    Image(Vec<u8>),
    /// A solid colour.
    Color(Color),
}

/// The contents of a `Background`: image bytes or a colour.
pub enum BackgroundView {
    Image(Seq<u8>),
    Color(Color),
}

impl View for Background {
    type V = BackgroundView;

    open spec fn view(&self) -> BackgroundView {
        match self {
            Background::Image(data) => BackgroundView::Image(data@),
            Background::Color(c) => BackgroundView::Color(*c),
        }
    }
}

/// The background used where a theme names none: an opaque light grey-blue.
pub open spec fn default_background() -> BackgroundView {
    BackgroundView::Color(Color::spec_from_argb(255, 245, 245, 250))
}

impl Default for Background {
    /// The opaque colour (245, 245, 250).
    fn default() -> (b: Background)
        ensures
            b@ == default_background(),
            b@ matches BackgroundView::Color(c) && c.argb == 0xfff5_f5fa,
    {
        proof {
            crate::color::lemma_argb_layout(255, 245, 245, 250);
        }
        Background::Color(Color::from_argb(255, 245, 245, 250))
    }
}

impl Clone for Background {
    fn clone(&self) -> (b: Background)
        ensures
            b@ == self@,
    {
        match self {
            Background::Image(data) => {
                let copy = data.clone();
                assert(copy@ =~= data@);
                Background::Image(copy)
            },
            Background::Color(c) => Background::Color(*c),
        }
    }
}

/// Visual settings of a help page.
#[derive(Debug, PartialEq, Eq)]
pub struct Theme {
    /// The page background; `None` means the default background.
    pub background: Option<Background>,
}

/// The contents of a `Theme`.
pub struct ThemeView {
    pub background: Option<BackgroundView>,
}

impl View for Theme {
    type V = ThemeView;

    open spec fn view(&self) -> ThemeView {
        ThemeView {
            background: match self.background {
                Some(b) => Some(b@),
                None => None,
            },
        }
    }
}

impl Clone for Theme {
    fn clone(&self) -> (t: Theme)
        ensures
            t@ == self@,
    {
        match &self.background {
            Some(b) => Theme { background: Some(b.clone()) },
            None => Theme { background: None },
        }
    }
}

impl Default for Theme {
    /// A theme that names no background.
    fn default() -> (t: Theme)
        ensures
            t@.background is None,
    {
        Theme { background: None }
    }
}

impl Theme {
    /// The background the page is drawn with: the theme's own, else the default one.
    pub fn background_or_default(&self) -> (b: Background)
        ensures
            b@ == (match self@.background {
                Some(own) => own,
                None => default_background(),
            }),
    {
        match &self.background {
            Some(own) => own.clone(),
            None => Background::default(),
        }
    }
}

/// One card of a help page.
#[derive(Debug, PartialEq, Eq)]
pub struct HelpItem {
    /// The card's title.
    pub name: String,
    /// The card's description, under the title.
    pub desc: String,
    /// An SVG icon drawn left of the title, if any.
    pub icon: Option<Vec<u8>>,
}

/// The contents of a `HelpItem`.
pub struct HelpItemView {
    pub name: Seq<char>,
    pub desc: Seq<char>,
    pub icon: Option<Seq<u8>>,
}

impl View for HelpItem {
    type V = HelpItemView;

    open spec fn view(&self) -> HelpItemView {
        HelpItemView {
            name: self.name@,
            desc: self.desc@,
            icon: match self.icon {
                Some(data) => Some(data@),
                None => None,
            },
        }
    }
}

impl HelpItemView {
    /// A card shows an icon when it has icon data that is not empty.
    pub open spec fn has_icon(self) -> bool {
        match self.icon {
            Some(data) => data.len() > 0,
            None => false,
        }
    }
}

impl HelpItem {
    /// Whether the card shows an icon: it has icon data and the data is not empty.
    pub fn has_icon(&self) -> (b: bool)
        ensures
            b == self@.has_icon(),
            b == (self.icon matches Some(d) && d@.len() != 0),
    {
        match &self.icon {
            Some(data) => data.len() > 0,
            None => false,
        }
    }
}

/// A titled group of cards.
#[derive(Debug, PartialEq, Eq)]
pub struct HelpGroup {
    /// The group's heading.
    pub name: String,
    /// The group's cards, in reading order.
    pub list: Vec<HelpItem>,
}

/// The contents of a `HelpGroup`.
pub struct HelpGroupView {
    pub name: Seq<char>,
    pub list: Seq<HelpItemView>,
}

impl View for HelpGroup {
    type V = HelpGroupView;

    open spec fn view(&self) -> HelpGroupView {
        HelpGroupView { name: self.name@, list: self.list@.map_values(|i: HelpItem| i@) }
    }
}

/// Everything a help page shows.
#[derive(Debug, PartialEq, Eq)]
pub struct Options {
    /// The page title, centred above the groups.
    pub title: Option<String>,
    /// Visual settings.
    pub theme: Theme,
    /// The groups, top to bottom.
    pub groups: Vec<HelpGroup>,
}

/// The contents of an `Options`.
pub struct OptionsView {
    pub title: Option<Seq<char>>,
    pub theme: ThemeView,
    pub groups: Seq<HelpGroupView>,
}

impl View for Options {
    type V = OptionsView;

    open spec fn view(&self) -> OptionsView {
        OptionsView {
            title: match self.title {
                Some(t) => Some(t@),
                None => None,
            },
            theme: self.theme@,
            groups: self.groups@.map_values(|g: HelpGroup| g@),
        }
    }
}

impl OptionsView {
    /// The position of group `index` among the page's layout rows: a top margin comes
    /// first, then the title row when there is a title, then the groups in order.
    pub open spec fn group_slot(self, index: int) -> int {
        index + if self.title is Some { 2int } else { 1int }
    }

}

impl Options {
    /// The layout row that holds group `index` (see `OptionsView::group_slot`).
    pub fn group_slot(&self, index: usize) -> (slot: usize)
        requires
            index < self.groups.len(),
            self.groups.len() < usize::MAX - 1,
        ensures
            slot == self@.group_slot(index as int),
            slot == index + if self.title is Some { 2int } else { 1int },
    {
        if self.title.is_some() {
            index + 2
        } else {
            index + 1
        }
    }
}

/// Law: a card shows an icon exactly when it has icon data of nonzero length, whatever
/// that length is.
pub proof fn lemma_has_icon_exactly_nonempty(i: HelpItemView)
    ensures
        i.icon is None ==> !i.has_icon(),
        i.icon matches Some(d) ==> (i.has_icon() <==> d.len() != 0),
{
}

/// Law: the first group sits right after the top margin and the title row (if any), and
/// each later group sits on the row right after the group before it.
pub proof fn lemma_group_slots_consecutive(o: OptionsView)
    ensures
        o.title is Some ==> o.group_slot(0) == 2,
        o.title is None ==> o.group_slot(0) == 1,
        forall|j: int| 0 <= j ==> #[trigger] o.group_slot(j + 1) == o.group_slot(j) + 1,
{
}

} // verus!
