use vstd::prelude::*;
use crate::icon::{IconSource, IconModel, icon_view};

verus! {

/// The tooltip a tray item asks for.
pub struct Tooltip {
    pub title: String,
    pub description: String,
}

/// What a `Tooltip` holds, as plain values.
pub struct TooltipModel {
    pub title: Seq<char>,
    pub description: Seq<char>,
}

impl View for Tooltip {
    type V = TooltipModel;

    open spec fn view(&self) -> TooltipModel {
        TooltipModel { title: self.title@, description: self.description@ }
    }
}

impl Clone for Tooltip {
    fn clone(&self) -> (r: Self)
        ensures
            r@ == self@,
    {
        Tooltip { title: self.title.clone(), description: self.description.clone() }
    }
}

/// The view of an optional string.
pub open spec fn opt_str(s: Option<String>) -> Option<Seq<char>> {
    match s {
        Some(t) => Some(t@),
        None => None,
    }
}

/// The view of an optional tooltip.
pub open spec fn tooltip_view(t: Option<Tooltip>) -> Option<TooltipModel> {
    match t {
        Some(x) => Some(x@),
        None => None,
    }
}

/// One application's presence in the tray. `id` is chosen by the
/// application and need not be unique; the bus address under which the
/// item is stored is its identity.
pub struct TrayItem {
    pub id: String,
    pub title: Option<String>,
    pub icon: Option<IconSource>,
    pub tooltip: Option<Tooltip>,
}

/// What a `TrayItem` holds, as plain values.
pub struct ItemModel {
    pub id: Seq<char>,
    pub title: Option<Seq<char>>,
    pub icon: Option<IconModel>,
    pub tooltip: Option<TooltipModel>,
}

impl View for TrayItem {
    type V = ItemModel;

    open spec fn view(&self) -> ItemModel {
        ItemModel {
            id: self.id@,
            title: opt_str(self.title),
            icon: icon_view(self.icon),
            tooltip: tooltip_view(self.tooltip),
        }
    }
}

impl Clone for TrayItem {
    fn clone(&self) -> (r: Self)
        ensures
            r@ == self@,
    {
        TrayItem {
            id: self.id.clone(),
            title: match &self.title {
                Some(t) => Some(t.clone()),
                None => None,
            },
            icon: match &self.icon {
                Some(i) => Some(i.clone()),
                None => None,
            },
            tooltip: match &self.tooltip {
                Some(t) => Some(t.clone()),
                None => None,
            },
        }
    }
}

/// The text of a button's tooltip: the tooltip's own title if there is a
/// tooltip, else `title`, else nothing; followed by a line with the
/// tooltip's description when both are non-empty.
pub open spec fn tooltip_text_of(tooltip: Option<TooltipModel>, title: Option<Seq<char>>) -> Seq<char> {
    let head = if tooltip is Some {
        tooltip->0.title
    } else if title is Some {
        title->0
    } else {
        Seq::empty()
    };
    let description = if tooltip is Some {
        tooltip->0.description
    } else {
        Seq::empty()
    };
    if description.len() > 0 && head.len() > 0 {
        head + seq!['\n'] + description
    } else {
        head
    }
}

/// Computes the tooltip text of a button from a tray item's tooltip and
/// the title to fall back on.
pub fn tooltip_text(tooltip: &Option<Tooltip>, title: &Option<String>) -> (r: String)
    ensures
        r@ == tooltip_text_of(tooltip_view(*tooltip), opt_str(*title)),
{
    let head: String = match tooltip {
        Some(t) => t.title.clone(),
        None => match title {
            Some(s) => s.clone(),
            None => String::new(),
        },
    };
    let description: String = match tooltip {
        Some(t) => t.description.clone(),
        None => String::new(),
    };
    if !description.as_str().is_empty() && !head.as_str().is_empty() {
        proof {
            reveal_strlit("\n");
        }
        let with_break = head.concat("\n");
        with_break.concat(description.as_str())
    } else {
        head
    }
}

/// The title a button falls back on when an item gives none.
pub open spec fn untitled() -> Seq<char> {
    seq!['U', 'n', 'k', 'n', 'o', 'w', 'n']
}

impl TrayItem {
    /// The item's title, or a placeholder word when it has none.
    pub open spec fn display_title_of(self) -> Seq<char> {
        match self.title {
            Some(t) => t@,
            None => untitled(),
        }
    }

    /// The tooltip text of this item's button.
    pub fn button_tooltip(&self) -> (r: String)
        ensures
            r@ == tooltip_text_of(tooltip_view(self.tooltip), Some(self.display_title_of())),
    {
        let title: String = match &self.title {
            Some(t) => t.clone(),
            None => {
                proof {
                    reveal_strlit("Unknown");
                }
                let u = String::from_str("Unknown");
                assert(u@ =~= untitled());
                u
            },
        };
        tooltip_text(&self.tooltip, &Some(title))
    }

    /// A plain tooltip for the item: its title when non-empty, else its id
    /// when non-empty, else none.
    pub fn basic_tooltip(&self) -> (r: Option<String>)
        ensures
            opt_str(r) == (if self.title is Some && self.title->0@.len() > 0 {
                Some(self.title->0@)
            } else if self.id@.len() > 0 {
                Some(self.id@)
            } else {
                None
            }),
    {
        match &self.title {
            Some(t) => {
                if !t.as_str().is_empty() {
                    return Some(t.clone());
                }
            },
            None => {},
        }
        if !self.id.as_str().is_empty() {
            Some(self.id.clone())
        } else {
            None
        }
    }
}

} // verus!
