//! Compiling a menu tree: each button receives an integer identifier, in
//! pre-order from 1, and the identifier table maps it back to the button's signal.
use vstd::prelude::*;

use crate::menu::{item_signals, lemma_signals_from_unfold, signals_from, signals_of, Menu, MenuItem};

verus! {

/// The largest identifier a compiled menu can hand out: identifiers travel in
/// the low 16 bits of a native menu command.
pub const MAX_MENU_ID: u16 = 0xFFFF;

/// `o` is `item` with the signal of every button replaced by its identifier,
/// identifiers counting up in pre-order from `next`.
pub open spec fn item_ids<T>(o: MenuItem<u16>, item: MenuItem<T>, next: int) -> bool {
    match item {
        MenuItem::Separator => o is Separator,
        MenuItem::Button { name, checked, .. } => o matches MenuItem::Button {
            name: n,
            signal: id,
            checked: c,
        } && n == name && id == next && c == checked,
        MenuItem::Menu { name, children } => o matches MenuItem::Menu { name: n, children: oc }
            && n == name && oc@.len() == children@.len() && ids_from(oc@, children@, 0, next),
    }
}

/// `out[i..]` is `items[i..]` with every button's signal replaced by its
/// identifier, identifiers counting up in pre-order from `next`.
pub open spec fn ids_from<T>(out: Seq<MenuItem<u16>>, items: Seq<MenuItem<T>>, i: int, next: int) -> bool
    decreases items, items.len() - i,
{
    if i < 0 || i >= items.len() {
        true
    } else {
        &&& i < out.len()
        &&& match items[i] {
            MenuItem::Separator => out[i] is Separator,
            MenuItem::Button { name, checked, .. } => out[i] matches MenuItem::Button {
                name: n,
                signal: id,
                checked: c,
            } && n == name && id == next && c == checked,
            MenuItem::Menu { name, children } => out[i] matches MenuItem::Menu {
                name: n,
                children: oc,
            } && n == name && oc@.len() == children@.len() && ids_from(oc@, children@, 0, next),
        }
        &&& ids_from(out, items, i + 1, next + item_signals(items[i]).len())
    }
}

/// `out` is the layout of `items` with identifiers assigned from 1.
pub open spec fn is_layout_of<T>(out: Seq<MenuItem<u16>>, items: Seq<MenuItem<T>>) -> bool {
    out.len() == items.len() && ids_from(out, items, 0, 1)
}

/// The identifier table of a sequence of signals: identifier `k + 1` maps to
/// the `k`-th signal.
pub open spec fn id_table<T>(signals: Seq<T>) -> Map<int, T> {
    Map::new(|id: int| 1 <= id <= signals.len(), |id: int| signals[id - 1])
}

proof fn lemma_ids_from_unfold<T>(out: Seq<MenuItem<u16>>, items: Seq<MenuItem<T>>, i: int, next: int)
    requires
        0 <= i < items.len(),
    ensures
        ids_from(out, items, i, next) == (i < out.len() && item_ids(out[i], items[i], next)
            && ids_from(out, items, i + 1, next + item_signals(items[i]).len())),
{
}

proof fn lemma_ids_from_all<T>(out: Seq<MenuItem<u16>>, items: Seq<MenuItem<T>>, i: int, end: int)
    requires
        0 <= i <= items.len(),
        out.len() >= items.len(),
        forall|j: int|
            i <= j < items.len() ==> item_ids(
                #[trigger] out[j],
                items[j],
                end - signals_from(items, j).len(),
            ),
    ensures
        ids_from(out, items, i, end - signals_from(items, i).len()),
    decreases items.len() - i,
{
    if i < items.len() {
        lemma_ids_from_all(out, items, i + 1, end);
        lemma_signals_from_unfold(items, i);
        lemma_ids_from_unfold(out, items, i, end - signals_from(items, i).len());
    }
}

/// A compiled menu: the layout to hand to the native menu, in which every
/// button carries its identifier, and the signals, the `k`-th of which belongs
/// to identifier `k + 1`.
pub struct CompiledMenu<T> {
    pub layout: Vec<MenuItem<u16>>,
    pub signals: Vec<T>,
}

/// Compiles `items`, appending the signals of their buttons to `signals` and
/// giving the buttons the identifiers that follow those already handed out.
/// `None` when the identifiers run out.
fn compile_items<T>(items: Vec<MenuItem<T>>, signals: &mut Vec<T>) -> (r: Option<Vec<MenuItem<u16>>>)
    requires
        old(signals)@.len() <= MAX_MENU_ID,
    ensures
        r is Some <==> old(signals)@.len() + signals_of(items@).len() <= MAX_MENU_ID,
        r matches Some(out) ==> final(signals)@ == old(signals)@ + signals_of(items@)
            && out@.len() == items@.len() && ids_from(out@, items@, 0, old(signals)@.len() + 1 as int),
    decreases items@,
{
    let ghost orig = items@;
    let ghost s0 = signals@;
    let ghost end: int = s0.len() + signals_of(orig).len() + 1int;
    let mut rest = items;
    let mut out: Vec<MenuItem<u16>> = Vec::new();
    let ghost mut k: int = 0;
    while rest.len() > 0
        invariant
            orig == items@,
            s0 == old(signals)@,
            0 <= k <= orig.len(),
            rest@ == orig.subrange(k, orig.len() as int),
            out@.len() == k,
            signals@.len() <= MAX_MENU_ID,
            signals@ + signals_from(orig, k) == s0 + signals_of(orig),
            end == s0.len() + signals_of(orig).len() + 1,
            forall|j: int|
                0 <= j < k ==> item_ids(#[trigger] out@[j], orig[j], end - signals_from(orig, j).len()),
        decreases rest@.len(),
    {
        let item = rest.remove(0);
        proof {
            lemma_signals_from_unfold(orig, k);
            assert(item == orig[k]);
            assert(decreases_to!(orig => orig[k]));
        }
        let ghost before = signals@;
        match item {
            MenuItem::Separator => {
                out.push(MenuItem::Separator);
                proof {
                    assert(signals@ + signals_from(orig, k + 1) =~= s0 + signals_of(orig));
                }
            },
            MenuItem::Button { name, signal, checked } => {
                if signals.len() >= MAX_MENU_ID as usize {
                    proof {
                        assert(item_signals(orig[k]) == seq![signal]);
                        assert(signals_from(orig, k).len() >= 1);
                        assert((signals@ + signals_from(orig, k)).len() == (s0 + signals_of(orig)).len());
                        assert(signals@.len() + signals_from(orig, k).len() == s0.len() + signals_of(orig).len());
                    }
                    return None;
                }
                signals.push(signal);
                out.push(MenuItem::Button { name, signal: signals.len() as u16, checked });
                proof {
                    assert(signals@ + signals_from(orig, k + 1) =~= s0 + signals_of(orig)) by {
                        assert(signals@ + signals_from(orig, k + 1) =~= before + (seq![signal] + signals_from(orig, k + 1)));
                    }
                }
            },
            MenuItem::Menu { name, children } => {
                proof {
                    assert(orig[k] == MenuItem::Menu { name, children });
                    assert(decreases_to!(orig[k] => children));
                    assert(decreases_to!(children => children@));
                    assert(decreases_to!(orig => children@));
                }
                let ghost kids = children@;
                let sub = compile_items(children, signals);
                match sub {
                    None => {
                        proof {
                            assert(item_signals(orig[k]) == signals_from(kids, 0));
                            assert((before + signals_from(orig, k)).len() == (s0 + signals_of(orig)).len());
                        }
                        return None;
                    },
                    Some(sub) => {
                        out.push(MenuItem::Menu { name, children: sub });
                        proof {
                            assert(signals@ + signals_from(orig, k + 1) =~= s0 + signals_of(orig)) by {
                                assert(signals@ + signals_from(orig, k + 1) =~= before + (signals_from(children@, 0) + signals_from(orig, k + 1)));
                            }
                        }
                    },
                }
            },
        }
        proof {
            k = k + 1;
        }
    }
    proof {
        lemma_ids_from_all(out@, orig, 0, end);
    }
    Some(out)
}

impl<T> CompiledMenu<T> {
    /// The identifier table: identifier `k + 1` maps to the `k`-th signal.
    pub open spec fn table(&self) -> Map<int, T> {
        id_table(self.signals@)
    }

    /// Compiles `menu` in pre-order: buttons get identifiers 1, 2, ... and
    /// their signals go to the table; separators and submenus get none.
    /// `None` exactly when the menu holds more buttons than there are identifiers.
    pub fn compile(menu: Menu<T>) -> (r: Option<Self>)
        ensures
            r is Some <==> signals_of(menu.items@).len() <= MAX_MENU_ID,
            r matches Some(c) ==> c.signals@ == signals_of(menu.items@) && is_layout_of(
                c.layout@,
                menu.items@,
            ),
    {
        let mut signals: Vec<T> = Vec::new();
        match compile_items(menu.items, &mut signals) {
            Some(layout) => {
                proof {
                    assert(signals@ =~= signals_of(menu.items@));
                }
                Some(CompiledMenu { layout, signals })
            },
            None => None,
        }
    }

    /// The signal of the button with identifier `id`, if there is one.
    pub fn lookup(&self, id: u16) -> (r: Option<&T>)
        ensures
            r is Some <==> self.table().contains_key(id as int),
            r matches Some(s) ==> *s == self.table()[id as int],
    {
        if id >= 1 && (id as usize) <= self.signals.len() {
            Some(&self.signals[(id - 1) as usize])
        } else {
            None
        }
    }
}

proof fn lemma_preorder_ids<T>(out: Seq<MenuItem<u16>>, items: Seq<MenuItem<T>>, i: int, next: int)
    requires
        out.len() == items.len(),
        0 <= i <= items.len(),
        ids_from(out, items, i, next),
    ensures
        signals_from(out, i).len() == signals_from(items, i).len(),
        forall|k: int|
            0 <= k < signals_from(out, i).len() ==> #[trigger] signals_from(out, i)[k] as int == next
                + k,
    decreases items, items.len() - i,
{
    if i < items.len() {
        lemma_signals_from_unfold(items, i);
        lemma_signals_from_unfold(out, i);
        lemma_ids_from_unfold(out, items, i, next);
        let n = item_signals(items[i]).len();
        match items[i] {
            MenuItem::Menu { children, .. } => {
                let oc = out[i]->children;
                assert(decreases_to!(items => children@)) by {
                    assert(decreases_to!(items => items[i]));
                };
                lemma_preorder_ids(oc@, children@, 0, next);
            },
            _ => {},
        }
        lemma_preorder_ids(out, items, i + 1, next + n);
        assert forall|k: int| 0 <= k < signals_from(out, i).len() implies #[trigger] signals_from(
            out,
            i,
        )[k] as int == next + k by {
            if k >= n {
                assert(signals_from(out, i)[k] == signals_from(out, i + 1)[k - n]);
            }
        }
    }
}

/// Round trip: in a compiled layout the `k`-th button in pre-order carries an
/// identifier that the table maps back to the `k`-th signal of the source
/// menu, that is, to that very button's signal.
pub proof fn lemma_lookup_round_trip<T>(layout: Seq<MenuItem<u16>>, items: Seq<MenuItem<T>>)
    requires
        is_layout_of(layout, items),
    ensures
        signals_of(layout).len() == signals_of(items).len(),
        forall|k: int|
            0 <= k < signals_of(items).len() ==> id_table(signals_of(items)).contains_key(
                #[trigger] signals_of(layout)[k] as int,
            ) && id_table(signals_of(items))[signals_of(layout)[k] as int] == signals_of(items)[k],
{
    lemma_preorder_ids(layout, items, 0, 1);
}

/// Determinism: equal menu trees compile to layouts with the same identifiers
/// in the same pre-order positions, and to equal identifier tables.
pub proof fn lemma_compile_deterministic<T>(
    la: Seq<MenuItem<u16>>,
    a: Seq<MenuItem<T>>,
    lb: Seq<MenuItem<u16>>,
    b: Seq<MenuItem<T>>,
)
    requires
        a == b,
        is_layout_of(la, a),
        is_layout_of(lb, b),
    ensures
        signals_of(la) == signals_of(lb),
        id_table(signals_of(a)) == id_table(signals_of(b)),
{
    lemma_preorder_ids(la, a, 0, 1);
    lemma_preorder_ids(lb, b, 0, 1);
    assert(signals_of(la) =~= signals_of(lb));
}

/// Only buttons get identifiers: the keys of the table are exactly the
/// identifiers that the buttons of the layout carry; separators and submenus
/// have no identifier field at all.
pub proof fn lemma_keys_are_button_ids<T>(layout: Seq<MenuItem<u16>>, items: Seq<MenuItem<T>>)
    requires
        is_layout_of(layout, items),
    ensures
        forall|id: int|
            #[trigger] id_table(signals_of(items)).contains_key(id) <==> exists|k: int|
                0 <= k < signals_of(layout).len() && signals_of(layout)[k] as int == id,
{
    lemma_preorder_ids(layout, items, 0, 1);
    assert forall|id: int| #[trigger] id_table(signals_of(items)).contains_key(id) implies exists|
        k: int,
    | 0 <= k < signals_of(layout).len() && signals_of(layout)[k] as int == id by {
        assert(signals_of(layout)[id - 1] as int == id);
    }
}

} // verus!
