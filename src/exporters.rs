//! The template cache: what each exporter has advertised, keyed by its address
//! and observation domain.
use vstd::prelude::*;
use std::collections::HashMap;
use crate::flow::{Template, TemplateModel};

verus! {

/// A source address of datagrams.
#[derive(Clone, Copy, Debug, PartialEq, Eq, Structural, Hash)]
pub enum IpAddress {
    V4(u32),
    V6(u128),
}

/// The identity under which templates are remembered: source address and
/// observation domain.
#[derive(Clone, Copy, Debug, PartialEq, Eq, Structural, Hash)]
pub struct Exporter {
    pub addr: IpAddress,
    pub domain_id: u32,
}

/// What the collector knows of one exporter.
pub struct ExporterInfos {
    /// Sampling interval that the exporter last announced; 1 until it does.
    pub sampling: u32,
    /// Templates by id.
    pub template: HashMap<u16, Template>,
}

impl Default for ExporterInfos {
    /// An exporter not heard of before: sampling 1, no templates.
    fn default() -> (r: ExporterInfos)
        ensures
            r.sampling == 1,
            r.template@ == Map::<u16, Template>::empty(),
    {
        ExporterInfos { sampling: 1, template: HashMap::new() }
    }
}

/// What the collector knows of one exporter, as values.
pub struct ExporterModel {
    pub sampling: u32,
    pub templates: Map<u16, TemplateModel>,
}

pub open spec fn infos_model(i: ExporterInfos) -> ExporterModel {
    ExporterModel { sampling: i.sampling, templates: i.template@.map_values(|t: Template| t@) }
}

pub open spec fn entries_map(s: Seq<(Exporter, ExporterInfos)>) -> Map<Exporter, ExporterModel>
    decreases s.len(),
{
    if s.len() == 0 {
        Map::empty()
    } else {
        entries_map(s.drop_last()).insert(s.last().0, infos_model(s.last().1))
    }
}

pub open spec fn keys_unique(s: Seq<(Exporter, ExporterInfos)>) -> bool {
    forall|i: int, j: int| 0 <= i < j < s.len() ==> #[trigger] s[i].0 != #[trigger] s[j].0
}

/// The cache after template `id` of exporter `key` was set to `t`; an exporter
/// seen for the first time starts with sampling 1.
pub open spec fn installed(
    m: Map<Exporter, ExporterModel>,
    key: Exporter,
    id: u16,
    t: TemplateModel,
) -> Map<Exporter, ExporterModel> {
    if m.contains_key(key) {
        m.insert(key, ExporterModel { sampling: m[key].sampling, templates: m[key].templates.insert(id, t) })
    } else {
        m.insert(key, ExporterModel { sampling: 1, templates: map![id => t] })
    }
}

/// The cache after exporter `key` announced the sampling interval `v`.
pub open spec fn with_sampling(m: Map<Exporter, ExporterModel>, key: Exporter, v: u32) -> Map<Exporter, ExporterModel> {
    if m.contains_key(key) {
        m.insert(key, ExporterModel { sampling: v, templates: m[key].templates })
    } else {
        m
    }
}

proof fn lemma_entries_lookup(s: Seq<(Exporter, ExporterInfos)>, i: int)
    requires
        keys_unique(s),
        0 <= i < s.len(),
    ensures
        entries_map(s).contains_key(s[i].0),
        entries_map(s)[s[i].0] == infos_model(s[i].1),
    decreases s.len(),
{
    if i < s.len() - 1 {
        lemma_entries_lookup(s.drop_last(), i);
    }
}

proof fn lemma_entries_absent(s: Seq<(Exporter, ExporterInfos)>, k: Exporter)
    requires
        forall|i: int| 0 <= i < s.len() ==> s[i].0 != k,
    ensures
        !entries_map(s).contains_key(k),
    decreases s.len(),
{
    if s.len() > 0 {
        lemma_entries_absent(s.drop_last(), k);
    }
}

proof fn lemma_entries_len(s: Seq<(Exporter, ExporterInfos)>)
    requires
        keys_unique(s),
    ensures
        entries_map(s).dom().finite(),
        entries_map(s).len() == s.len(),
    decreases s.len(),
{
    if s.len() > 0 {
        lemma_entries_len(s.drop_last());
        lemma_entries_absent(s.drop_last(), s.last().0);
    }
}

proof fn lemma_entries_update(s: Seq<(Exporter, ExporterInfos)>, i: int, v: ExporterInfos)
    requires
        keys_unique(s),
        0 <= i < s.len(),
    ensures
        entries_map(s.update(i, (s[i].0, v))) == entries_map(s).insert(s[i].0, infos_model(v)),
    decreases s.len(),
{
    let t = s.update(i, (s[i].0, v));
    if i == s.len() - 1 {
        assert(t.drop_last() =~= s.drop_last());
        lemma_entries_absent(s.drop_last(), s[i].0);
        assert(entries_map(t) =~= entries_map(s).insert(s[i].0, infos_model(v)));
    } else {
        lemma_entries_update(s.drop_last(), i, v);
        assert(t.drop_last() =~= s.drop_last().update(i, (s[i].0, v)));
        assert(entries_map(t) =~= entries_map(s).insert(s[i].0, infos_model(v)));
    }
}

/// All exporters seen so far, with what each has advertised.
pub struct ExporterList {
    entries: Vec<(Exporter, ExporterInfos)>,
}

impl View for ExporterList {
    type V = Map<Exporter, ExporterModel>;

    closed spec fn view(&self) -> Map<Exporter, ExporterModel> {
        entries_map(self.entries@)
    }
}

impl ExporterList {
    /// Each exporter appears once, and every template's record length is the sum
    /// of its field lengths.
    pub closed spec fn wf(&self) -> bool {
        &&& keys_unique(self.entries@)
        &&& forall|i: int, id: u16|
            0 <= i < self.entries@.len() && #[trigger] self.entries@[i].1.template@.contains_key(id)
                ==> self.entries@[i].1.template@[id].wf()
    }

    pub fn new() -> (r: ExporterList)
        ensures
            r.wf(),
            r@ == Map::<Exporter, ExporterModel>::empty(),
    {
        ExporterList { entries: Vec::new() }
    }

    /// Number of exporters known.
    pub fn len(&self) -> (r: usize)
        requires
            self.wf(),
        ensures
            r == self@.len(),
    {
        proof {
            lemma_entries_len(self.entries@);
        }
        self.entries.len()
    }

    fn find(&self, key: &Exporter) -> (r: Option<usize>)
        requires
            self.wf(),
        ensures
            match r {
                Some(i) => i < self.entries@.len() && self.entries@[i as int].0 == *key,
                None => !self@.contains_key(*key),
            },
    {
        let mut i: usize = 0;
        while i < self.entries.len()
            invariant
                i <= self.entries@.len(),
                forall|j: int| 0 <= j < i ==> self.entries@[j].0 != *key,
            decreases self.entries@.len() - i,
        {
            if self.entries[i].0 == *key {
                return Some(i);
            }
            i = i + 1;
        }
        proof {
            lemma_entries_absent(self.entries@, *key);
        }
        None
    }

    /// What is known of exporter `key`, if anything.
    pub fn get(&self, key: &Exporter) -> (r: Option<&ExporterInfos>)
        requires
            self.wf(),
        ensures
            match r {
                Some(infos) => {
                    &&& self@.contains_key(*key)
                    &&& infos_model(*infos) == self@[*key]
                    &&& forall|id: u16| #[trigger] infos.template@.contains_key(id) ==> infos.template@[id].wf()
                },
                None => !self@.contains_key(*key),
            },
    {
        match self.find(key) {
            Some(i) => {
                proof {
                    lemma_entries_lookup(self.entries@, i as int);
                }
                Some(&self.entries[i].1)
            },
            None => None,
        }
    }

    /// Records the sampling interval that exporter `key` announced.
    pub fn set_sampling(&mut self, key: &Exporter, v: u32)
        requires
            old(self).wf(),
        ensures
            final(self).wf(),
            final(self)@ == with_sampling(old(self)@, *key, v),
    {
        match self.find(key) {
            Some(i) => {
                proof {
                    lemma_entries_lookup(self.entries@, i as int);
                }
                let ghost before = self.entries@;
                self.entries[i].1.sampling = v;
                proof {
                    let w = self.entries@[i as int].1;
                    assert(self.entries@ == before.update(i as int, (*key, w)));
                    lemma_entries_update(before, i as int, w);
                    assert(keys_unique(self.entries@));
                }
            },
            None => {},
        }
    }

    /// Remembers `t` as template `id` of exporter `key`, replacing any earlier one.
    pub fn install(&mut self, key: Exporter, id: u16, t: Template)
        requires
            old(self).wf(),
            t.wf(),
        ensures
            final(self).wf(),
            final(self)@ == installed(old(self)@, key, id, t@),
    {
        broadcast use vstd::std_specs::hash::group_hash_axioms;
        let ghost tm = t@;
        match self.find(&key) {
            Some(i) => {
                proof {
                    lemma_entries_lookup(self.entries@, i as int);
                }
                let ghost before = self.entries@;
                self.entries[i].1.template.insert(id, t);
                proof {
                    let v = self.entries@[i as int].1;
                    assert(self.entries@ == before.update(i as int, (key, v)));
                    lemma_entries_update(before, i as int, v);
                    assert(infos_model(v).templates =~= infos_model(before[i as int].1).templates.insert(id, tm));
                    assert(keys_unique(self.entries@));
                }
            },
            None => {
                let mut infos = ExporterInfos::default();
                infos.template.insert(id, t);
                let ghost before = self.entries@;
                self.entries.push((key, infos));
                proof {
                    let v = self.entries@.last().1;
                    assert(self.entries@.drop_last() =~= before);
                    assert(infos_model(v).templates =~= map![id => tm]);
                    assert forall|a: int, b: int| 0 <= a < b < self.entries@.len() implies
                        #[trigger] self.entries@[a].0 != #[trigger] self.entries@[b].0 by {
                        if b == before.len() {
                            lemma_entries_lookup(before, a);
                        }
                    }
                }
            },
        }
    }
}

} // verus!
