//! Icon packs: the kinds of icon, the packs offered when a table is made, and
//! the answer to a request for one pack of the catalog.

use vstd::prelude::*;

use crate::response::{APIResponse, Error};
use crate::table::CatalogError;

verus! {

/// A pack as the page that makes a table offers it.
#[derive(Debug)]
pub struct ItemPack {
    pub id: String,
    pub name: String,
    pub desc: String,
    pub author: String,
    pub default: bool,
    pub img: Option<String>,
}

/// What an offered pack says of itself.
pub struct ItemPackView {
    pub id: Seq<char>,
    pub name: Seq<char>,
    pub desc: Seq<char>,
    pub author: Seq<char>,
    pub default: bool,
    pub img: Option<Seq<char>>,
}

impl View for ItemPack {
    type V = ItemPackView;

    open spec fn view(&self) -> ItemPackView {
        ItemPackView {
            id: self.id@,
            name: self.name@,
            desc: self.desc@,
            author: self.author@,
            default: self.default,
            img: match self.img {
                Some(img) => Some(img@),
                None => None,
            },
        }
    }
}

/// The playing cards, offered ticked.
pub open spec fn cards_pack() -> ItemPackView {
    ItemPackView {
        id: "cards"@,
        name: "Cards"@,
        desc: "A 52 pack of cards, along with the jokers"@,
        author: "Loading_M_"@,
        default: true,
        img: None,
    }
}

/// The general icons, offered unticked.
pub open spec fn icons_pack() -> ItemPackView {
    ItemPackView {
        id: "icons"@,
        name: "Icons"@,
        desc: "A wide variety of icons"@,
        author: "Loading_M_"@,
        default: false,
        img: None,
    }
}

/// The packs offered when a table is made: the cards, then the icons.
pub fn default_packs() -> (packs: Vec<ItemPack>)
    ensures
        packs@.len() == 2,
        packs@[0]@ == cards_pack(),
        packs@[1]@ == icons_pack(),
{
    let mut packs = Vec::new();
    packs.push(
        ItemPack {
            id: "cards".to_owned(),
            name: "Cards".to_owned(),
            desc: "A 52 pack of cards, along with the jokers".to_owned(),
            author: "Loading_M_".to_owned(),
            default: true,
            img: None,
        },
    );
    packs.push(
        ItemPack {
            id: "icons".to_owned(),
            name: "Icons".to_owned(),
            desc: "A wide variety of icons".to_owned(),
            author: "Loading_M_".to_owned(),
            default: false,
            img: None,
        },
    );
    packs
}

/// The kind of an icon. The catalog stores it as a number: 1 for an image, 2
/// for an icon of an icon font, 3 for a vector drawing.
#[derive(Debug, Clone, Copy, PartialEq, Eq, Structural)]
pub enum IconType {
    Image,
    Icon,
    Svg,
}

impl IconType {
    /// The kind that the catalog stores as `number`, if there is one.
    pub open spec fn of(number: i32) -> Option<IconType> {
        if number == 1 {
            Some(IconType::Image)
        } else if number == 2 {
            Some(IconType::Icon)
        } else if number == 3 {
            Some(IconType::Svg)
        } else {
            None
        }
    }

    /// The number that the catalog stores for the kind.
    pub open spec fn spec_repr(self) -> i32 {
        match self {
            IconType::Image => 1,
            IconType::Icon => 2,
            IconType::Svg => 3,
        }
    }

    /// The kind that the catalog stores as `number`; an error for a number
    /// that stands for no kind.
    pub fn try_from(number: i32) -> (kind: Result<IconType, ()>)
        ensures
            match kind {
                Ok(found) => IconType::of(number) == Some(found),
                Err(_) => IconType::of(number) is None,
            },
    {
        if number == 1 {
            Ok(IconType::Image)
        } else if number == 2 {
            Ok(IconType::Icon)
        } else if number == 3 {
            Ok(IconType::Svg)
        } else {
            Err(())
        }
    }

    /// The number that the catalog stores for the kind.
    #[verifier::when_used_as_spec(spec_repr)]
    pub fn repr(self) -> (number: i32)
        ensures
            number == self.spec_repr(),
    {
        match self {
            IconType::Image => 1,
            IconType::Icon => 2,
            IconType::Svg => 3,
        }
    }
}

/// Reading a kind back from its number gives the kind, and a number that
/// stands for a kind is the number of that kind.
pub proof fn lemma_icon_type_round_trip(kind: IconType, number: i32)
    ensures
        IconType::of(kind.spec_repr()) == Some(kind),
        IconType::of(number) matches Some(found) ==> found.spec_repr() == number,
{
}

/// One icon of a pack.
#[derive(Debug)]
pub enum Icon {
    /// A picture; `src` says where it lies.
    Image { id: u32, name: String, src: String },
    /// A glyph of an icon font; `class` selects it.
    Icon { id: u32, name: String, class: String },
    /// A vector drawing; `src` says where it lies.
    Svg { id: u32, name: String, src: String },
}

/// One icon of a pack, as the model sees it.
pub enum IconView {
    Image { id: u32, name: Seq<char>, src: Seq<char> },
    Icon { id: u32, name: Seq<char>, class: Seq<char> },
    Svg { id: u32, name: Seq<char>, src: Seq<char> },
}

impl View for Icon {
    type V = IconView;

    open spec fn view(&self) -> IconView {
        match *self {
            Icon::Image { id, name, src } => IconView::Image { id, name: name@, src: src@ },
            Icon::Icon { id, name, class } => IconView::Icon { id, name: name@, class: class@ },
            Icon::Svg { id, name, src } => IconView::Svg { id, name: name@, src: src@ },
        }
    }
}

/// One row of the catalog's table of icons.
#[derive(Debug)]
pub struct IconRow {
    /// The number of the icon's kind.
    pub ty: i32,
    /// The icon's identifier within its pack.
    pub icon_id: u32,
    /// The icon's name.
    pub name: String,
    /// Where the picture lies or, for a font icon, the class that selects it.
    pub img: String,
}

impl IconRow {
    /// The icon that the row describes, if the row's kind is known.
    pub open spec fn icon(self) -> Option<IconView> {
        match IconType::of(self.ty) {
            Some(IconType::Image) => Some(
                IconView::Image { id: self.icon_id, name: self.name@, src: self.img@ },
            ),
            Some(IconType::Icon) => Some(
                IconView::Icon { id: self.icon_id, name: self.name@, class: self.img@ },
            ),
            Some(IconType::Svg) => Some(
                IconView::Svg { id: self.icon_id, name: self.name@, src: self.img@ },
            ),
            None => None,
        }
    }

    /// The icon that the row describes, or `None` where the row's kind is
    /// unknown.
    pub fn to_icon(&self) -> (icon: Option<Icon>)
        ensures
            match icon {
                Some(found) => self.icon() == Some(found@),
                None => self.icon() is None,
            },
    {
        let id = self.icon_id;
        let name = self.name.clone();
        let img = self.img.clone();
        match IconType::try_from(self.ty) {
            Ok(IconType::Image) => Some(Icon::Image { id, name, src: img }),
            Ok(IconType::Icon) => Some(Icon::Icon { id, name, class: img }),
            Ok(IconType::Svg) => Some(Icon::Svg { id, name, src: img }),
            Err(_) => None,
        }
    }
}

/// One pack of the catalog: its name and its icons.
#[derive(Debug)]
pub struct IconPack {
    pub name: String,
    pub icons: Vec<Icon>,
}

/// The icon that one answer of the catalog describes: none where the catalog
/// failed to give the row, and none where the row's kind is unknown.
pub open spec fn described(row: Result<IconRow, CatalogError>) -> Option<IconView> {
    match row {
        Ok(row) => row.icon(),
        Err(_) => None,
    }
}

/// The icons that the catalog's answers describe, in their order, or `None`
/// where one of the answers describes no icon.
pub open spec fn icons_of(rows: Seq<Result<IconRow, CatalogError>>) -> Option<Seq<IconView>>
    decreases rows.len(),
{
    if rows.len() == 0 {
        Some(Seq::empty())
    } else {
        match (icons_of(rows.drop_last()), described(rows.last())) {
            (Some(icons), Some(icon)) => Some(icons.push(icon)),
            _ => None,
        }
    }
}

/// An answer without an icon among the first answers leaves the whole list
/// without icons.
proof fn lemma_no_icons_stays(rows: Seq<Result<IconRow, CatalogError>>, n: int)
    requires
        0 <= n <= rows.len(),
        icons_of(rows.take(n)) is None,
    ensures
        icons_of(rows) is None,
    decreases rows.len() - n,
{
    if n < rows.len() {
        assert(rows.take(n + 1).drop_last() =~= rows.take(n));
        lemma_no_icons_stays(rows, n + 1);
    } else {
        assert(rows.take(n) =~= rows);
    }
}

/// The views of a list of icons.
pub open spec fn icon_views(icons: Seq<Icon>) -> Seq<IconView> {
    Seq::new(icons.len(), |i: int| icons[i]@)
}

/// Whether `response` is the answer to a request for one pack, given what the
/// catalog said of the pack's name and of its icons. A pack that the catalog
/// does not know is not found. Any other failure is an internal error, and so
/// is a row of an unknown kind. Otherwise the answer is the pack with its
/// icons in the catalog's order.
pub open spec fn answers_pack(
    name: Result<String, CatalogError>,
    rows: Seq<Result<IconRow, CatalogError>>,
    response: APIResponse<IconPack>,
) -> bool {
    match name {
        Err(CatalogError::NotFound) => response matches APIResponse::NotFound(error) && error@
            == "Icon pack not found"@,
        Err(CatalogError::Internal) => response matches APIResponse::InternalError(error) && error@
            == "Icon pack not found"@,
        Ok(found) => match icons_of(rows) {
            Some(icons) => {
                &&& response matches APIResponse::Okay(pack)
                &&& pack.name@ == found@
                &&& icon_views(pack.icons@) == icons
            },
            None => response matches APIResponse::InternalError(error) && error@
                == "Internal Error"@,
        },
    }
}

/// The answer to a request for one pack of the catalog. `name` is what the
/// catalog said of the pack's name, and `rows` what it said of the pack's
/// icons, in its order. Where the name was not found the rows do not matter.
pub fn get_icon_pack(
    name: Result<String, CatalogError>,
    rows: &Vec<Result<IconRow, CatalogError>>,
) -> (response: APIResponse<IconPack>)
    ensures
        answers_pack(name, rows@, response),
{
    let found = match &name {
        Ok(found) => found.clone(),
        Err(CatalogError::NotFound) => {
            return APIResponse::not_found(Error::new("Icon pack not found".to_owned()));
        },
        Err(CatalogError::Internal) => {
            return APIResponse::internal_error(Error::new("Icon pack not found".to_owned()));
        },
    };
    let mut icons: Vec<Icon> = Vec::new();
    let mut i: usize = 0;
    while i < rows.len()
        invariant
            i <= rows.len(),
            name matches Ok(given) && given@ == found@,
            icons_of(rows@.take(i as int)) == Some(icon_views(icons@)),
        decreases rows.len() - i,
    {
        proof {
            assert(rows@.take(i + 1).drop_last() =~= rows@.take(i as int));
        }
        let ghost so_far = icon_views(icons@);
        let icon = match &rows[i] {
            Ok(row) => row.to_icon(),
            Err(_) => None,
        };
        match icon {
            Some(icon) => {
                icons.push(icon);
                assert(icon_views(icons@) =~= so_far.push(icon@));
            },
            None => {
                proof {
                    lemma_no_icons_stays(rows@, i + 1);
                }
                return APIResponse::internal_error(Error::new("Internal Error".to_owned()));
            },
        }
        i += 1;
    }
    proof {
        assert(rows@.take(rows@.len() as int) =~= rows@);
    }
    APIResponse::ok(IconPack { name: found, icons })
}

} // verus!
