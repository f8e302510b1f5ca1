//! The records configuration (`records.json`): for each table name, its
//! primary key, columns, relations and constraints.

use vstd::prelude::*;

verus! {

/// A named, typed column.
#[derive(Debug)]
pub struct Field {
    pub name: String,
    pub ty: String,
}

/// A relation to another table, with the foreign key columns by name.
#[derive(Debug)]
pub struct Relation {
    pub table_name: String,
    pub foreing_key: Vec<(String, Field)>,
}

/// The configuration of one table.
#[derive(Debug)]
pub struct TableConfig {
    pub primary_key: Vec<Field>,
    pub columns: Vec<Field>,
    pub relations: Vec<Relation>,
    pub constraints: Vec<Field>,
}

pub type FieldV = (Seq<char>, Seq<char>);

pub type RelationV = (Seq<char>, Seq<(Seq<char>, FieldV)>);

pub type TableConfigV = (Seq<FieldV>, Seq<FieldV>, Seq<RelationV>, Seq<FieldV>);

impl DeepView for Field {
    type V = FieldV;

    open spec fn deep_view(&self) -> FieldV {
        (self.name@, self.ty@)
    }
}

impl DeepView for Relation {
    type V = RelationV;

    open spec fn deep_view(&self) -> RelationV {
        (self.table_name@, self.foreing_key.deep_view())
    }
}

impl DeepView for TableConfig {
    type V = TableConfigV;

    open spec fn deep_view(&self) -> TableConfigV {
        (
            self.primary_key.deep_view(),
            self.columns.deep_view(),
            self.relations.deep_view(),
            self.constraints.deep_view(),
        )
    }
}

fn copy_field(f: &Field) -> (r: Field)
    ensures
        r.deep_view() == f.deep_view(),
{
    Field { name: f.name.clone(), ty: f.ty.clone() }
}

fn copy_fields(v: &Vec<Field>) -> (r: Vec<Field>)
    ensures
        r.deep_view() == v.deep_view(),
{
    let mut out: Vec<Field> = Vec::new();
    let mut i: usize = 0;
    while i < v.len()
        invariant
            i <= v.len(),
            out@.len() == i,
            forall|j: int| 0 <= j < i ==> (#[trigger] out@[j]).deep_view() == v@[j].deep_view(),
        decreases v.len() - i,
    {
        out.push(copy_field(&v[i]));
        i = i + 1;
    }
    assert(out.deep_view() =~= v.deep_view());
    out
}

fn copy_relation(r0: &Relation) -> (r: Relation)
    ensures
        r.deep_view() == r0.deep_view(),
{
    let mut keys: Vec<(String, Field)> = Vec::new();
    let mut i: usize = 0;
    while i < r0.foreing_key.len()
        invariant
            i <= r0.foreing_key.len(),
            keys@.len() == i,
            forall|j: int| 0 <= j < i ==> (#[trigger] keys@[j]).deep_view() == r0.foreing_key@[j].deep_view(),
        decreases r0.foreing_key.len() - i,
    {
        let k = r0.foreing_key[i].0.clone();
        let f = copy_field(&r0.foreing_key[i].1);
        keys.push((k, f));
        i = i + 1;
    }
    assert(keys.deep_view() =~= r0.foreing_key.deep_view());
    Relation { table_name: r0.table_name.clone(), foreing_key: keys }
}

fn copy_relations(v: &Vec<Relation>) -> (r: Vec<Relation>)
    ensures
        r.deep_view() == v.deep_view(),
{
    let mut out: Vec<Relation> = Vec::new();
    let mut i: usize = 0;
    while i < v.len()
        invariant
            i <= v.len(),
            out@.len() == i,
            forall|j: int| 0 <= j < i ==> (#[trigger] out@[j]).deep_view() == v@[j].deep_view(),
        decreases v.len() - i,
    {
        out.push(copy_relation(&v[i]));
        i = i + 1;
    }
    assert(out.deep_view() =~= v.deep_view());
    out
}

fn copy_table_config(c: &TableConfig) -> (r: TableConfig)
    ensures
        r.deep_view() == c.deep_view(),
{
    TableConfig {
        primary_key: copy_fields(&c.primary_key),
        columns: copy_fields(&c.columns),
        relations: copy_relations(&c.relations),
        constraints: copy_fields(&c.constraints),
    }
}

/// The configuration of every table, by table name.
#[derive(Debug)]
pub struct RecordConfig {
    tables: Vec<(String, TableConfig)>,
}

/// No table name occurs twice.
pub open spec fn distinct_names(s: Seq<(String, TableConfig)>) -> bool {
    forall|i: int, j: int| 0 <= i < j < s.len() ==> (#[trigger] s[i]).0@ != (#[trigger] s[j]).0@
}

/// The tables of a list of entries, by name.
pub open spec fn entries_map(s: Seq<(String, TableConfig)>) -> Map<Seq<char>, TableConfigV>
    decreases s.len(),
{
    if s.len() == 0 {
        Map::empty()
    } else {
        entries_map(s.drop_last()).insert(s.last().0@, s.last().1.deep_view())
    }
}

proof fn lemma_entries_map(s: Seq<(String, TableConfig)>, k: Seq<char>)
    requires
        distinct_names(s),
    ensures
        entries_map(s).dom().contains(k) <==> exists|i: int| 0 <= i < s.len() && (#[trigger] s[i]).0@ == k,
        forall|i: int| 0 <= i < s.len() && (#[trigger] s[i]).0@ == k ==> entries_map(s)[k] == s[i].1.deep_view(),
    decreases s.len(),
{
    if s.len() > 0 {
        let t = s.drop_last();
        assert(distinct_names(t));
        lemma_entries_map(t, k);
        if entries_map(s).dom().contains(k) && k != s.last().0@ {
            let i = choose|i: int| 0 <= i < t.len() && (#[trigger] t[i]).0@ == k;
            assert(s[i] == t[i]);
        }
        if k == s.last().0@ {
            assert(s[s.len() - 1].0@ == k);
        }
        assert forall|i: int| 0 <= i < s.len() && (#[trigger] s[i]).0@ == k implies entries_map(s)[k] == s[i].1.deep_view() by {
            if i < s.len() - 1 {
                assert(t[i] == s[i]);
                assert(s[i].0@ != s[s.len() - 1].0@);
            }
        }
        assert forall|i: int| 0 <= i < s.len() && (#[trigger] s[i]).0@ == k implies entries_map(s).dom().contains(k) by {
            if i < s.len() - 1 {
                assert(t[i] == s[i]);
            }
        }
    }
}

impl RecordConfig {
    #[verifier::type_invariant]
    spec fn wf(self) -> bool {
        distinct_names(self.tables@)
    }

    /// The tables by name.
    pub closed spec fn view(&self) -> Map<Seq<char>, TableConfigV> {
        entries_map(self.tables@)
    }

    /// A configuration with no table.
    pub fn new() -> (r: RecordConfig)
        ensures
            r.view() == Map::<Seq<char>, TableConfigV>::empty(),
    {
        RecordConfig { tables: Vec::new() }
    }

    fn position(&self, name: &str) -> (r: Option<usize>)
        ensures
            match r {
                Some(i) => i < self.tables@.len() && self.tables@[i as int].0@ == name@,
                None => forall|i: int| 0 <= i < self.tables@.len() ==> (#[trigger] self.tables@[i]).0@ != name@,
            },
    {
        let mut i: usize = 0;
        while i < self.tables.len()
            invariant
                i <= self.tables@.len(),
                forall|j: int| 0 <= j < i ==> (#[trigger] self.tables@[j]).0@ != name@,
            decreases self.tables.len() - i,
        {
            if crate::text::str_eq(self.tables[i].0.as_str(), name) {
                return Some(i);
            }
            i = i + 1;
        }
        None
    }

    /// The configuration of the table `name`, if there is one.
    pub fn table(&self, name: &str) -> (r: Option<TableConfig>)
        ensures
            match r {
                Some(c) => self.view().dom().contains(name@) && c.deep_view() == self.view()[name@],
                None => !self.view().dom().contains(name@),
            },
    {
        proof {
            use_type_invariant(self);
            lemma_entries_map(self.tables@, name@);
        }
        match self.position(name) {
            Some(i) => Some(copy_table_config(&self.tables[i].1)),
            None => None,
        }
    }

    /// Sets the configuration of the table `name`, in place of any it had.
    pub fn insert(&mut self, name: String, config: TableConfig)
        ensures
            final(self).view() == old(self).view().insert(name@, config.deep_view()),
    {
        proof {
            use_type_invariant(&*self);
        }
        let ghost old_tables = self.tables@;
        let pos = self.position(name.as_str());
        let ghost key = name@;
        let ghost val = config.deep_view();
        let mut tables = Vec::new();
        std::mem::swap(&mut tables, &mut self.tables);
        match pos {
            Some(i) => {
                tables.set(i, (name, config));
            },
            None => {
                tables.push((name, config));
            },
        }
        proof {
            let s = tables@;
            assert(distinct_names(s)) by {
                assert forall|a: int, b: int| 0 <= a < b < s.len() implies (#[trigger] s[a]).0@ != (#[trigger] s[b]).0@ by {
                    if a < old_tables.len() && b < old_tables.len() {
                        if pos is Some {
                            let p = pos.unwrap() as int;
                            if a != p && b != p {
                                assert(s[a] == old_tables[a] && s[b] == old_tables[b]);
                            } else if a == p {
                                assert(s[b] == old_tables[b]);
                                assert(old_tables[a].0@ == key);
                            } else {
                                assert(s[a] == old_tables[a]);
                                assert(old_tables[b].0@ == key);
                            }
                        } else {
                            assert(s[a] == old_tables[a] && s[b] == old_tables[b]);
                        }
                    } else {
                        assert(s[a] == old_tables[a]);
                    }
                }
            }
            let m = entries_map(old_tables).insert(key, val);
            assert forall|k: Seq<char>| #[trigger] entries_map(s).dom().contains(k) <==> m.dom().contains(k) by {
                lemma_entries_map(s, k);
                lemma_entries_map(old_tables, k);
                if k == key {
                    let p = if pos is Some { pos.unwrap() as int } else { old_tables.len() as int };
                    assert(s[p].0@ == k);
                } else {
                    if entries_map(old_tables).dom().contains(k) {
                        let i = choose|i: int| 0 <= i < old_tables.len() && (#[trigger] old_tables[i]).0@ == k;
                        assert(s[i] == old_tables[i]);
                    }
                    if entries_map(s).dom().contains(k) {
                        let i = choose|i: int| 0 <= i < s.len() && (#[trigger] s[i]).0@ == k;
                        assert(s[i] == old_tables[i]);
                    }
                }
            }
            assert forall|k: Seq<char>| #[trigger] entries_map(s).dom().contains(k) implies entries_map(s)[k] == m[k] by {
                lemma_entries_map(s, k);
                lemma_entries_map(old_tables, k);
                if k == key {
                    let p = if pos is Some { pos.unwrap() as int } else { old_tables.len() as int };
                    assert(s[p].0@ == k);
                } else {
                    let i = choose|i: int| 0 <= i < s.len() && (#[trigger] s[i]).0@ == k;
                    assert(s[i] == old_tables[i]);
                }
            }
            assert(entries_map(s) =~= entries_map(old_tables).insert(key, val));
        }
        self.tables = tables;
    }
}

/// What a lookup gives back after an insert: for the name just set, the
/// configuration just set; for every other name, what it gave before.
pub proof fn law_table_after_insert(before: RecordConfig, after: RecordConfig, name: Seq<char>, config: TableConfigV, other: Seq<char>)
    requires
        after.view() == before.view().insert(name, config),
    ensures
        after.view().dom().contains(name),
        after.view()[name] == config,
        other != name ==> (after.view().dom().contains(other) <==> before.view().dom().contains(other)),
        other != name && before.view().dom().contains(other) ==> after.view()[other] == before.view()[other],
{
}

} // verus!
