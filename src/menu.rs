//! The menu model: an ordered tree of separators, buttons and submenus.
use vstd::prelude::*;

verus! {

/// The kind of click made on the tray icon itself.
#[derive(Debug, Clone, Copy, PartialEq, Eq, Structural)]
pub enum ClickType {
    Left,
    Right,
    Double,
}

/// What the application callback receives: a click on the icon, or the
/// signal of a selected menu button.
#[derive(Debug, Clone, Copy, PartialEq, Eq)]
pub enum TrayEvent<T> {
    Tray(ClickType),
    Menu(T),
}

/// One entry of a menu.
#[derive(Debug, PartialEq, Eq)]
pub enum MenuItem<T> {
    Separator,
    Button { name: String, signal: T, checked: bool },
    Menu { name: String, children: Vec<MenuItem<T>> },
}

/// An ordered sequence of menu entries; the order is the visual order.
#[derive(Debug, PartialEq, Eq)]
pub struct Menu<T> {
    pub items: Vec<MenuItem<T>>,
}

/// The signals of the buttons of `items[i..]`, in pre-order: a button gives its
/// signal, a submenu the signals of its children, a separator nothing.
pub open spec fn signals_from<T>(items: Seq<MenuItem<T>>, i: int) -> Seq<T>
    decreases items, items.len() - i,
{
    if i < 0 || i >= items.len() {
        Seq::empty()
    } else {
        let head = match items[i] {
            MenuItem::Separator => Seq::empty(),
            MenuItem::Button { signal, .. } => seq![signal],
            MenuItem::Menu { children, .. } => signals_from(children@, 0),
        };
        head + signals_from(items, i + 1)
    }
}

/// The signals of the buttons of a whole sequence of entries, in pre-order.
pub open spec fn signals_of<T>(items: Seq<MenuItem<T>>) -> Seq<T> {
    signals_from(items, 0)
}

/// The signals that one entry contributes, in pre-order.
pub open spec fn item_signals<T>(item: MenuItem<T>) -> Seq<T> {
    match item {
        MenuItem::Separator => Seq::empty(),
        MenuItem::Button { signal, .. } => seq![signal],
        MenuItem::Menu { children, .. } => signals_from(children@, 0),
    }
}

/// The signals of `items[i..]` are those of `items[i]` followed by those of
/// `items[i + 1..]`.
pub proof fn lemma_signals_from_unfold<T>(items: Seq<MenuItem<T>>, i: int)
    requires
        0 <= i < items.len(),
    ensures
        signals_from(items, i) == item_signals(items[i]) + signals_from(items, i + 1),
{
}

impl<T> Menu<T> {
    /// A menu of the given entries, in the given order.
    pub fn new(items: Vec<MenuItem<T>>) -> (r: Self)
        ensures
            r.items@ == items@,
    {
        Menu { items }
    }
}

impl<T> MenuItem<T> {
    /// A separator line.
    pub fn separator() -> (r: Self)
        ensures
            r is Separator,
    {
        MenuItem::Separator
    }

    /// An unchecked button that delivers `signal` when selected.
    pub fn button(name: &str, signal: T) -> (r: Self)
        ensures
            r matches MenuItem::Button { name: n, signal: s, checked: c } && n@ == name@ && s
                == signal && !c,
    {
        MenuItem::Button { name: name.to_string(), signal, checked: false }
    }

    /// A submenu holding `children` in the given order.
    pub fn menu(name: &str, children: Vec<MenuItem<T>>) -> (r: Self)
        ensures
            r matches MenuItem::Menu { name: n, children: c } && n@ == name@ && c@ == children@,
    {
        MenuItem::Menu { name: name.to_string(), children }
    }
}

} // verus!
