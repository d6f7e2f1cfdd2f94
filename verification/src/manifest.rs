//! The manifest of a plugin: the functions it exports to the host and the host
//! functions it imports, and the order in which imports are laid out.

use crate::text::{
    compare_text, lemma_antisymmetric, lemma_text_order_equal, lemma_transitive, text_order, Order,
};
use crate::types::ValueType;
use vstd::prelude::*;
use vstd::utf8::encode_utf8;

verus! {

/// How an exported function is reached.
#[derive(Clone, Copy, Debug, PartialEq, Eq, Structural)]
pub enum ExportKind {
    /// An entry point that the host invokes: no native parameters, one `Int32`
    /// status as result.
    PluginEntry,
    /// A function for other modules to call, with the native signature that the
    /// plugin declared.
    SharedEntry,
}

/// A function that the plugin exports.
#[derive(Clone, Debug, PartialEq, Eq)]
pub struct Export {
    pub name: String,
    pub params: Vec<ValueType>,
    pub results: Vec<ValueType>,
    pub kind: ExportKind,
}

/// An export as a mathematical value.
pub struct ExportView {
    pub name: Seq<char>,
    pub params: Seq<ValueType>,
    pub results: Seq<ValueType>,
    pub kind: ExportKind,
}

impl View for Export {
    type V = ExportView;

    open spec fn view(&self) -> ExportView {
        ExportView {
            name: self.name@,
            params: self.params@,
            results: self.results@,
            kind: self.kind,
        }
    }
}

/// A host function that the plugin calls by name.
#[derive(Clone, Debug, PartialEq, Eq)]
pub struct Import {
    pub module: String,
    pub name: String,
    pub params: Vec<ValueType>,
    pub results: Vec<ValueType>,
}

/// An import as a mathematical value.
pub struct ImportView {
    pub module: Seq<char>,
    pub name: Seq<char>,
    pub params: Seq<ValueType>,
    pub results: Seq<ValueType>,
}

impl View for Import {
    type V = ImportView;

    open spec fn view(&self) -> ImportView {
        ImportView {
            module: self.module@,
            name: self.name@,
            params: self.params@,
            results: self.results@,
        }
    }
}

/// What a plugin declares: its exports in declaration order, and its imports.
#[derive(Clone, Debug, PartialEq, Eq)]
pub struct Manifest {
    pub exports: Vec<Export>,
    pub imports: Vec<Import>,
}

/// The exports of a sequence, each as a mathematical value.
pub open spec fn export_views(s: Seq<Export>) -> Seq<ExportView> {
    s.map_values(|e: Export| e@)
}

/// The imports of a sequence, each as a mathematical value.
pub open spec fn import_views(s: Seq<Import>) -> Seq<ImportView> {
    s.map_values(|i: Import| i@)
}

/// Copies a list of value types.
pub fn copy_types(types: &Vec<ValueType>) -> (r: Vec<ValueType>)
    ensures
        r@ == types@,
{
    let mut r: Vec<ValueType> = Vec::new();
    let mut i: usize = 0;
    while i < types.len()
        invariant
            i <= types.len(),
            r@ == types@.take(i as int),
        decreases types.len() - i,
    {
        r.push(types[i]);
        assert(types@.take(i + 1) =~= types@.take(i as int).push(types@[i as int]));
        i += 1;
    }
    assert(types@.take(types.len() as int) =~= types@);
    r
}

impl Manifest {
    /// A manifest of these exports and imports.
    pub fn new(exports: Vec<Export>, imports: Vec<Import>) -> (r: Manifest)
        ensures
            r.exports@ == exports@,
            r.imports@ == imports@,
    {
        Manifest { exports, imports }
    }
}

impl Import {
    /// An import of `module`.`name` with the given signature.
    pub fn new(module: String, name: String, params: Vec<ValueType>, results: Vec<ValueType>) -> (r:
        Import)
        ensures
            r@ == (ImportView {
                module: module@,
                name: name@,
                params: params@,
                results: results@,
            }),
    {
        Import { module, name, params, results }
    }

    /// A copy of this import.
    pub fn duplicate(&self) -> (r: Import)
        ensures
            r@ == self@,
    {
        Import {
            module: self.module.clone(),
            name: self.name.clone(),
            params: copy_types(&self.params),
            results: copy_types(&self.results),
        }
    }
}

impl Export {
    /// An export of `name` with the given signature and kind.
    pub fn new(name: String, params: Vec<ValueType>, results: Vec<ValueType>, kind: ExportKind) -> (r:
        Export)
        ensures
            r@ == (ExportView { name: name@, params: params@, results: results@, kind }),
    {
        Export { name, params, results, kind }
    }

    /// A copy of this export.
    pub fn duplicate(&self) -> (r: Export)
        ensures
            r@ == self@,
    {
        Export {
            name: self.name.clone(),
            params: copy_types(&self.params),
            results: copy_types(&self.results),
            kind: self.kind,
        }
    }
}

/// The order of two imports: by module, and within a module by name, each
/// compared as UTF-8 text.
pub open spec fn import_order(a: ImportView, b: ImportView) -> Order {
    match text_order(a.module, b.module) {
        Order::Equal => text_order(a.name, b.name),
        o => o,
    }
}

/// Whether `a` may stand before `b` in the table of imports.
pub open spec fn precedes(a: ImportView, b: ImportView) -> bool {
    import_order(a, b) != Order::Greater
}

/// Whether each import of `s` may stand before all that follow it.
pub open spec fn ordered(s: Seq<ImportView>) -> bool {
    forall|i: int, j: int| 0 <= i < j < s.len() ==> precedes(#[trigger] s[i], #[trigger] s[j])
}

/// Where `x` goes into the ordered sequence `s`: behind the last import that
/// may stand before it.
pub open spec fn insert_position(s: Seq<ImportView>, x: ImportView) -> int
    decreases s.len(),
{
    if s.len() == 0 {
        0
    } else if precedes(s.last(), x) {
        s.len() as int
    } else {
        insert_position(s.drop_last(), x)
    }
}

/// The imports of `s` in table order. Imports with the same module and name
/// keep the order in which `s` has them.
pub open spec fn sorted_imports(s: Seq<ImportView>) -> Seq<ImportView>
    decreases s.len(),
{
    if s.len() == 0 {
        Seq::empty()
    } else {
        let r = sorted_imports(s.drop_last());
        r.insert(insert_position(r, s.last()), s.last())
    }
}

/// Compares two imports by module, then by name.
pub fn compare_imports(a: &Import, b: &Import) -> (r: Order)
    ensures
        r == import_order(a@, b@),
{
    match compare_text(a.module.as_str(), b.module.as_str()) {
        Order::Equal => compare_text(a.name.as_str(), b.name.as_str()),
        Order::Less => Order::Less,
        Order::Greater => Order::Greater,
    }
}

/// Puts the imports in table order.
pub fn sort_imports(imports: &Vec<Import>) -> (r: Vec<Import>)
    ensures
        import_views(r@) == sorted_imports(import_views(imports@)),
        ordered(import_views(r@)),
        import_views(r@).to_multiset() == import_views(imports@).to_multiset(),
        r.len() == imports.len(),
{
    let mut r: Vec<Import> = Vec::new();
    let mut i: usize = 0;
    assert(import_views(imports@).take(0) =~= Seq::<ImportView>::empty());
    while i < imports.len()
        invariant
            i <= imports.len(),
            import_views(r@) == sorted_imports(import_views(imports@).take(i as int)),
        decreases imports.len() - i,
    {
        let x = imports[i].duplicate();
        let mut j: usize = r.len();
        assert(import_views(r@).take(j as int) =~= import_views(r@));
        while j > 0 && compare_imports(&r[j - 1], &x) == Order::Greater
            invariant
                j <= r.len(),
                insert_position(import_views(r@), x@) == insert_position(
                    import_views(r@).take(j as int),
                    x@,
                ),
            decreases j,
        {
            proof {
                let t = import_views(r@).take(j as int);
                assert(t.last() == r@[j - 1]@);
                assert(t.drop_last() =~= import_views(r@).take(j - 1));
            }
            j -= 1;
        }
        proof {
            let whole = import_views(imports@);
            let before = whole.take(i as int);
            let next = whole.take(i + 1);
            assert(next.drop_last() =~= before);
            assert(next.last() == x@);
            let t = import_views(r@).take(j as int);
            if j > 0 {
                assert(t.last() == r@[j - 1]@);
            }
            assert(insert_position(t, x@) == j);
            assert(import_views(r@.insert(j as int, x)) =~= import_views(r@).insert(j as int, x@));
        }
        r.insert(j, x);
        i += 1;
    }
    proof {
        let whole = import_views(imports@);
        assert(whole.take(imports.len() as int) =~= whole);
        lemma_sorted_imports(whole);
    }
    r
}

/// Two imports can always be compared: one may stand before the other.
pub proof fn lemma_precedes_total(a: ImportView, b: ImportView)
    ensures
        precedes(a, b) || precedes(b, a),
        precedes(a, a),
{
    lemma_antisymmetric(encode_utf8(a.module), encode_utf8(b.module));
    lemma_antisymmetric(encode_utf8(a.name), encode_utf8(b.name));
    lemma_text_order_equal(a.module, a.module);
    lemma_text_order_equal(a.name, a.name);
}

/// If `a` may stand before `b` and `b` before `c`, then `a` may stand before
/// `c`.
pub proof fn lemma_precedes_transitive(a: ImportView, b: ImportView, c: ImportView)
    requires
        precedes(a, b),
        precedes(b, c),
    ensures
        precedes(a, c),
{
    lemma_transitive(encode_utf8(a.module), encode_utf8(b.module), encode_utf8(c.module));
    lemma_text_order_equal(a.module, b.module);
    lemma_text_order_equal(b.module, c.module);
    lemma_text_order_equal(a.module, c.module);
    if a.module == b.module && b.module == c.module {
        lemma_transitive(encode_utf8(a.name), encode_utf8(b.name), encode_utf8(c.name));
    }
}

/// The position at which an import is inserted lies within the sequence, what
/// stands before it may stay before the import, and the import may stand
/// before what follows.
pub proof fn lemma_insert_position(s: Seq<ImportView>, x: ImportView)
    requires
        ordered(s),
    ensures
        0 <= insert_position(s, x) <= s.len(),
        forall|i: int| 0 <= i < insert_position(s, x) ==> precedes(#[trigger] s[i], x),
        forall|i: int| insert_position(s, x) <= i < s.len() ==> precedes(x, #[trigger] s[i]),
    decreases s.len(),
{
    if s.len() == 0 {
    } else if precedes(s.last(), x) {
        assert forall|i: int| 0 <= i < s.len() implies precedes(#[trigger] s[i], x) by {
            if i < s.len() - 1 {
                assert(precedes(s[i], s[s.len() - 1]));
                lemma_precedes_transitive(s[i], s.last(), x);
            }
        }
    } else {
        let t = s.drop_last();
        assert forall|i: int, j: int| 0 <= i < j < t.len() implies precedes(
            #[trigger] t[i],
            #[trigger] t[j],
        ) by {
            assert(precedes(s[i], s[j]));
        }
        lemma_insert_position(t, x);
        let p = insert_position(t, x);
        assert forall|i: int| p <= i < s.len() implies precedes(x, #[trigger] s[i]) by {
            if i < s.len() - 1 {
                assert(precedes(x, t[i]));
            } else {
                lemma_precedes_total(s.last(), x);
            }
        }
        assert forall|i: int| 0 <= i < p implies precedes(#[trigger] s[i], x) by {
            assert(precedes(t[i], x));
        }
    }
}

/// The table order of a manifest's imports is ordered, and holds the same
/// imports as the manifest, each as often.
pub proof fn lemma_sorted_imports(s: Seq<ImportView>)
    ensures
        ordered(sorted_imports(s)),
        sorted_imports(s).to_multiset() == s.to_multiset(),
        sorted_imports(s).len() == s.len(),
    decreases s.len(),
{
    broadcast use vstd::seq_lib::group_to_multiset_ensures;

    if s.len() == 0 {
        assert(s =~= Seq::<ImportView>::empty());
    } else {
        let x = s.last();
        let r = sorted_imports(s.drop_last());
        lemma_sorted_imports(s.drop_last());
        lemma_insert_position(r, x);
        let p = insert_position(r, x);
        let q = r.insert(p, x);
        assert forall|i: int, j: int| 0 <= i < j < q.len() implies precedes(
            #[trigger] q[i],
            #[trigger] q[j],
        ) by {
            if j < p {
                assert(precedes(r[i], r[j]));
            } else if j == p {
                assert(precedes(r[i], x));
            } else if i < p {
                assert(precedes(r[i], r[j - 1]));
            } else if i == p {
                assert(precedes(x, r[j - 1]));
            } else {
                assert(precedes(r[i - 1], r[j - 1]));
            }
        }
        assert(q.remove(p) =~= r);
        assert(q.to_multiset().remove(x) =~= r.to_multiset());
        assert(q.to_multiset().count(x) > 0) by {
            assert(q[p] == x);
            assert(q.contains(x));
        }
        assert(s.drop_last().push(x) =~= s);
        assert(s.to_multiset() =~= s.drop_last().to_multiset().insert(x));
        assert(q.to_multiset() =~= r.to_multiset().insert(x));
    }
}

/// Two imports of which each may stand before the other have the same
/// module and name.
pub proof fn lemma_precedes_both_ways(a: ImportView, b: ImportView)
    requires
        precedes(a, b),
        precedes(b, a),
    ensures
        import_order(a, b) == Order::Equal,
        a.module == b.module,
        a.name == b.name,
{
    lemma_antisymmetric(encode_utf8(a.module), encode_utf8(b.module));
    lemma_antisymmetric(encode_utf8(a.name), encode_utf8(b.name));
    lemma_text_order_equal(a.module, b.module);
    lemma_text_order_equal(a.name, b.name);
}

/// Whether imports of the same module and name are the same import
/// throughout.
pub open spec fn keys_tell_apart(s: Seq<ImportView>) -> bool {
    forall|i: int, j: int|
        0 <= i < s.len() && 0 <= j < s.len() && import_order(#[trigger] s[i], #[trigger] s[j])
            == Order::Equal ==> s[i] == s[j]
}

/// There is one table order only: two ordered sequences of the same imports
/// are the same sequence, where the module and name of an import tell it
/// apart from the others.
pub proof fn lemma_ordered_is_unique(s: Seq<ImportView>, t: Seq<ImportView>)
    requires
        ordered(s),
        ordered(t),
        s.to_multiset() == t.to_multiset(),
        keys_tell_apart(s),
    ensures
        s == t,
    decreases s.len(),
{
    broadcast use vstd::seq_lib::group_to_multiset_ensures;

    s.to_multiset_ensures();
    t.to_multiset_ensures();
    assert(s.len() == t.len());
    if s.len() == 0 {
        assert(s =~= t);
    } else {
        let x = s.last();
        let y = t.last();
        assert(s.contains(x));
        assert(t.contains(y));
        assert(t.to_multiset().count(x) > 0);
        assert(t.contains(x));
        assert(s.to_multiset().count(y) > 0);
        assert(s.contains(y));
        let j = choose|j: int| 0 <= j < t.len() && t[j] == x;
        let i = choose|i: int| 0 <= i < s.len() && s[i] == y;
        lemma_precedes_total(x, y);
        assert(precedes(x, y)) by {
            if j < t.len() - 1 {
                assert(precedes(t[j], t[t.len() - 1]));
            }
        }
        assert(precedes(y, x)) by {
            if i < s.len() - 1 {
                assert(precedes(s[i], s[s.len() - 1]));
            }
        }
        lemma_precedes_both_ways(x, y);
        assert(x == y) by {
            assert(import_order(s[s.len() - 1], s[i]) == Order::Equal);
        }
        let s1 = s.drop_last();
        let t1 = t.drop_last();
        assert(s.remove(s.len() - 1) =~= s1);
        assert(t.remove(t.len() - 1) =~= t1);
        assert(s1.to_multiset() =~= s.to_multiset().remove(x));
        assert(t1.to_multiset() =~= t.to_multiset().remove(y));
        assert forall|a: int, b: int| 0 <= a < b < s1.len() implies precedes(
            #[trigger] s1[a],
            #[trigger] s1[b],
        ) by {
            assert(precedes(s[a], s[b]));
        }
        assert forall|a: int, b: int| 0 <= a < b < t1.len() implies precedes(
            #[trigger] t1[a],
            #[trigger] t1[b],
        ) by {
            assert(precedes(t[a], t[b]));
        }
        assert forall|a: int, b: int|
            0 <= a < s1.len() && 0 <= b < s1.len() && import_order(
                #[trigger] s1[a],
                #[trigger] s1[b],
            ) == Order::Equal implies s1[a] == s1[b] by {
            assert(import_order(s[a], s[b]) == Order::Equal);
        }
        lemma_ordered_is_unique(s1, t1);
        assert(s =~= s1.push(x));
        assert(t =~= t1.push(y));
    }
}

/// The table order does not depend on the order in which a manifest names
/// its imports: two lists of the same imports have the same table order,
/// where the module and name of an import tell it apart from the others.
pub proof fn lemma_table_order_ignores_declaration_order(a: Seq<ImportView>, b: Seq<ImportView>)
    requires
        a.to_multiset() == b.to_multiset(),
        keys_tell_apart(a),
    ensures
        sorted_imports(a) == sorted_imports(b),
{
    broadcast use vstd::seq_lib::group_to_multiset_ensures;

    lemma_sorted_imports(a);
    lemma_sorted_imports(b);
    let s = sorted_imports(a);
    assert forall|i: int, j: int|
        0 <= i < s.len() && 0 <= j < s.len() && import_order(#[trigger] s[i], #[trigger] s[j])
            == Order::Equal implies s[i] == s[j] by {
        assert(s.contains(s[i]));
        assert(s.contains(s[j]));
        assert(a.to_multiset().count(s[i]) > 0);
        assert(a.to_multiset().count(s[j]) > 0);
        assert(a.contains(s[i]));
        assert(a.contains(s[j]));
        let p = choose|p: int| 0 <= p < a.len() && a[p] == s[i];
        let q = choose|q: int| 0 <= q < a.len() && a[q] == s[j];
        assert(import_order(a[p], a[q]) == Order::Equal);
    }
    lemma_ordered_is_unique(s, sorted_imports(b));
}

} // verus!
