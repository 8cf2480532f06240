//! The state shared by the tray handle and the native event hook: the current
//! compiled menu and the current tooltip.
use vstd::prelude::*;

use crate::builder::TrayIconBuilder;
use crate::compile::{CompiledMenu, MAX_MENU_ID};
use crate::menu::{signals_of, Menu};

verus! {

/// The text of an optional string, as a sequence of characters.
pub open spec fn opt_text(s: Option<String>) -> Option<Seq<char>> {
    match s {
        Some(t) => Some(t@),
        None => None,
    }
}

/// The menu and the tooltip that the tray currently shows. The menu is
/// replaced as a whole, never edited in place.
pub struct SharedTrayState<T> {
    pub menu: Option<CompiledMenu<T>>,
    pub tooltip: Option<String>,
}

/// `after` is `before` with its tooltip set to `text` and its menu kept.
pub open spec fn tooltip_updated<T>(
    before: SharedTrayState<T>,
    text: Option<Seq<char>>,
    after: SharedTrayState<T>,
) -> bool {
    after.menu == before.menu && opt_text(after.tooltip) == text
}

/// `compiled` is what compiling `menu` gives, where there is a menu.
pub open spec fn compiled_from<T>(compiled: Option<CompiledMenu<T>>, menu: Option<Menu<T>>) -> bool {
    match menu {
        None => compiled is None,
        Some(m) => compiled matches Some(c) && c.signals@ == signals_of(m.items@)
            && crate::compile::is_layout_of(c.layout@, m.items@),
    }
}

/// The menu is small enough to compile, or absent.
pub open spec fn menu_fits<T>(menu: Option<Menu<T>>) -> bool {
    menu matches Some(m) ==> signals_of(m.items@).len() <= MAX_MENU_ID
}

fn compile_optional<T>(menu: Option<Menu<T>>) -> (r: Option<Option<CompiledMenu<T>>>)
    ensures
        r is Some <==> menu_fits(menu),
        r matches Some(c) ==> compiled_from(c, menu),
{
    match menu {
        None => Some(None),
        Some(m) => match CompiledMenu::compile(m) {
            Some(c) => Some(Some(c)),
            None => None,
        },
    }
}

impl<T> SharedTrayState<T> {
    /// The state a new tray starts in: the builder's menu compiled, and its
    /// tooltip. `None` exactly when the menu holds more buttons than there
    /// are identifiers.
    pub fn from_builder(builder: TrayIconBuilder<T>) -> (r: Option<Self>)
        ensures
            r is Some <==> menu_fits(builder.menu),
            r matches Some(s) ==> compiled_from(s.menu, builder.menu) && s.tooltip
                == builder.tooltip,
    {
        match compile_optional(builder.menu) {
            Some(menu) => Some(SharedTrayState { menu, tooltip: builder.tooltip }),
            None => None,
        }
    }

    /// Replaces the tooltip; `None` clears it. The menu is kept.
    pub fn set_tooltip(&mut self, tooltip: Option<&str>)
        ensures
            tooltip_updated(
                *old(self),
                match tooltip {
                    Some(t) => Some(t@),
                    None => None,
                },
                *final(self),
            ),
    {
        self.tooltip = match tooltip {
            Some(t) => Some(t.to_string()),
            None => None,
        };
    }

    /// Replaces the menu as a whole by the compiled `menu`, or removes it.
    /// Returns `false`, leaving the state as it was, exactly when the menu
    /// holds more buttons than there are identifiers.
    pub fn set_menu(&mut self, menu: Option<Menu<T>>) -> (r: bool)
        ensures
            r == menu_fits(menu),
            r ==> compiled_from(final(self).menu, menu) && final(self).tooltip == old(self).tooltip,
            !r ==> *final(self) == *old(self),
    {
        match compile_optional(menu) {
            Some(c) => {
                self.menu = c;
                true
            },
            None => false,
        }
    }

    /// The tooltip text to hand to the native icon: empty when there is none.
    pub fn tooltip_text(&self) -> (r: &str)
        ensures
            r@ == match self.tooltip {
                Some(t) => t@,
                None => Seq::<char>::empty(),
            },
    {
        match &self.tooltip {
            Some(t) => t.as_str(),
            None => {
                proof {
                    reveal_strlit("");
                }
                ""
            },
        }
    }
}

/// Setting the same tooltip twice in a row leaves the state as setting it once
/// does, and setting `None` clears the tooltip.
pub proof fn lemma_set_tooltip_idempotent<T>(
    s0: SharedTrayState<T>,
    s1: SharedTrayState<T>,
    s2: SharedTrayState<T>,
    text: Option<Seq<char>>,
)
    requires
        tooltip_updated(s0, text, s1),
        tooltip_updated(s1, text, s2),
    ensures
        tooltip_updated(s0, text, s2),
        text is None ==> s2.tooltip is None,
{
}

} // verus!
