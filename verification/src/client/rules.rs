//! Rules for hosts: under which name to reach them, through which backend, or
//! directly.

use vstd::prelude::*;
use crate::client::peer::{lemma_hostname, PeerInfo};
use crate::text::{copy_text, same_text, text_view};

verus! {

/// What the rule file says of one host.
pub struct HostRuleSection {
    pub rewrite: Option<String>,
    pub backend: Option<String>,
    pub direct: bool,
}

/// What the rule file says of one host, as mathematical values.
pub struct SectionView {
    pub rewrite: Option<Seq<char>>,
    pub backend: Option<Seq<char>>,
    pub direct: bool,
}

/// A section does not make a host direct unless it says so.
pub fn default_is_not_direct() -> (r: bool)
    ensures
        !r,
{
    false
}

impl HostRuleSection {
    /// The section as mathematical values.
    pub open spec fn view(&self) -> SectionView {
        SectionView {
            rewrite: text_view(self.rewrite),
            backend: text_view(self.backend),
            direct: self.direct,
        }
    }

    /// The same section once more.
    pub fn copy(&self) -> (r: Self)
        ensures
            r@ == self@,
    {
        HostRuleSection {
            rewrite: copy_text(&self.rewrite),
            backend: copy_text(&self.backend),
            direct: self.direct,
        }
    }
}

/// What is known of the rules for a host.
pub enum HostRules {
    /// Nobody looked yet.
    Unknown,
    NoRule,
    GotRule(HostRuleSection),
}

/// What is known of the rules for a host, as mathematical values.
pub enum RulesView {
    Unknown,
    NoRule,
    GotRule(SectionView),
}

impl HostRules {
    /// The rules as mathematical values.
    pub open spec fn view(&self) -> RulesView {
        match self {
            HostRules::Unknown => RulesView::Unknown,
            HostRules::NoRule => RulesView::NoRule,
            HostRules::GotRule(section) => RulesView::GotRule(section@),
        }
    }
}

/// Whether a section says anything.
pub open spec fn says_something(section: SectionView) -> bool {
    section.rewrite is Some || section.backend is Some || section.direct
}

/// The sections that say something, by host; of two with one name the later one
/// counts.
pub open spec fn rules_of(sections: Seq<(String, HostRuleSection)>) -> Map<Seq<char>, SectionView>
    decreases sections.len(),
{
    if sections.len() == 0 {
        Map::empty()
    } else {
        let rules = rules_of(sections.drop_last());
        let (name, section) = sections.last();
        if says_something(section@) {
            rules.insert(name@, section@)
        } else {
            rules
        }
    }
}

/// What looking a host up makes of what is known of its rules: that there is no
/// rule stays so.
pub open spec fn looked_up(
    rules: Map<Seq<char>, SectionView>,
    hostname: Seq<char>,
    known: RulesView,
) -> RulesView {
    if known is NoRule {
        known
    } else if rules.contains_key(hostname) {
        RulesView::GotRule(rules[hostname])
    } else {
        RulesView::NoRule
    }
}

/// The entries of `items` by name.
pub open spec fn entries_map(items: Seq<(String, HostRuleSection)>) -> Map<Seq<char>, SectionView> {
    Map::new(
        |name: Seq<char>| exists|i: int| 0 <= i < items.len() && (#[trigger] items[i]).0@ == name,
        |name: Seq<char>|
            items[choose|i: int| 0 <= i < items.len() && (#[trigger] items[i]).0@ == name].1@,
    )
}

/// No name has two entries.
pub open spec fn distinct_names(items: Seq<(String, HostRuleSection)>) -> bool {
    forall|i: int, j: int|
        0 <= i < j < items.len() ==> (#[trigger] items[i]).0@ != (#[trigger] items[j]).0@
}

proof fn lemma_entries_map(items: Seq<(String, HostRuleSection)>)
    requires
        distinct_names(items),
    ensures
        forall|i: int|
            #![trigger items[i]]
            0 <= i < items.len() ==> entries_map(items).contains_key(items[i].0@) && entries_map(
                items,
            )[items[i].0@] == items[i].1@,
{
    assert forall|i: int| #![trigger items[i]] 0 <= i < items.len() implies entries_map(
        items,
    ).contains_key(items[i].0@) && entries_map(items)[items[i].0@] == items[i].1@ by {
        let k = choose|k: int| 0 <= k < items.len() && (#[trigger] items[k]).0@ == items[i].0@;
        assert(k == i);
    }
}

proof fn lemma_entries_update(
    before: Seq<(String, HostRuleSection)>,
    after: Seq<(String, HostRuleSection)>,
    at: int,
)
    requires
        distinct_names(before),
        0 <= at <= before.len(),
        after.len() == if at < before.len() { before.len() } else { before.len() + 1 },
        forall|i: int| 0 <= i < before.len() && i != at ==> after[i] == before[i],
        at < before.len() ==> after[at].0@ == before[at].0@,
        at == before.len() ==> !entries_map(before).contains_key(after[at].0@),
    ensures
        distinct_names(after),
        entries_map(after) == entries_map(before).insert(after[at].0@, after[at].1@),
{
    assert forall|i: int, j: int| 0 <= i < j < after.len() implies (#[trigger] after[i]).0@ != (
    #[trigger] after[j]).0@ by {
        if j < before.len() {
            assert(before[i].0@ != before[j].0@);
        } else {
            assert(before[i].0@ != after[at].0@);
        }
    }
    lemma_entries_map(before);
    lemma_entries_map(after);
    assert forall|name: Seq<char>| #[trigger]
        entries_map(after).contains_key(name) == entries_map(before).insert(
            after[at].0@,
            after[at].1@,
        ).contains_key(name) by {
        if entries_map(after).contains_key(name) {
            let i = choose|i: int| 0 <= i < after.len() && (#[trigger] after[i]).0@ == name;
            if i != at {
                assert(before[i].0@ == name);
            }
        }
        if entries_map(before).contains_key(name) {
            let i = choose|i: int| 0 <= i < before.len() && (#[trigger] before[i]).0@ == name;
            assert(after[i].0@ == name);
        }
    }
    assert forall|name: Seq<char>| #[trigger]
        entries_map(after).contains_key(name) implies entries_map(after)[name] == entries_map(
        before,
    ).insert(after[at].0@, after[at].1@)[name] by {
        let i = choose|i: int| 0 <= i < after.len() && (#[trigger] after[i]).0@ == name;
        assert(after[i].0@ == name);
        if i != at {
            assert(before[i].0@ == name);
            if name == after[at].0@ {
                assert(after[at].0@ == after[i].0@);
                assert(false);
            }
        }
    }
    assert(entries_map(after) =~= entries_map(before).insert(after[at].0@, after[at].1@));
}

/// The rules for hosts, at least one.
pub struct HostRuler {
    items: Vec<(String, HostRuleSection)>,
}

impl HostRuler {
    /// The rules by host.
    pub closed spec fn view(&self) -> Map<Seq<char>, SectionView> {
        entries_map(self.items@)
    }

    #[verifier::type_invariant]
    spec fn wf(self) -> bool {
        distinct_names(self.items@)
    }

    /// The rules that the sections of a rule file give, or nothing where no
    /// section says anything.
    pub fn new(sections: Vec<(String, HostRuleSection)>) -> (r: Option<Self>)
        ensures
            match r {
                Some(ruler) => ruler@ == rules_of(sections@) && rules_of(sections@)
                    != Map::<Seq<char>, SectionView>::empty(),
                None => rules_of(sections@) == Map::<Seq<char>, SectionView>::empty(),
            },
    {
        let mut items: Vec<(String, HostRuleSection)> = Vec::new();
        let mut k: usize = 0;
        assert(sections@.take(0) =~= Seq::empty());
        assert(entries_map(items@) =~= Map::empty());
        while k < sections.len()
            invariant
                k <= sections@.len(),
                distinct_names(items@),
                entries_map(items@) == rules_of(sections@.take(k as int)),
            decreases sections@.len() - k,
        {
            let name: &String = &sections[k].0;
            let section: &HostRuleSection = &sections[k].1;
            let ghost before = items@;
            proof {
                assert(sections@.take(k + 1).drop_last() =~= sections@.take(k as int));
                assert(sections@.take(k + 1).last() == sections@[k as int]);
            }
            if section.rewrite.is_some() || section.backend.is_some() || section.direct {
                let at: usize = position(&items, name.as_str());
                let entry = (name.clone(), section.copy());
                if at < items.len() {
                    items.set(at, entry);
                } else {
                    items.push(entry);
                }
                proof {
                    lemma_entries_update(before, items@, at as int);
                }
            }
            k = k + 1;
        }
        assert(sections@.take(k as int) =~= sections@);
        if items.len() == 0 {
            assert(entries_map(items@) =~= Map::empty());
            return None;
        }
        proof {
            lemma_entries_map(items@);
            assert(entries_map(items@).contains_key(items@[0].0@));
        }
        Some(HostRuler { items })
    }

    /// Notes the rule for the host of a peer, unless it is known that there is
    /// none.
    pub fn find_rule(&self, peer: &mut PeerInfo)
        requires
            old(peer).wf(),
        ensures
            final(peer).wf(),
            final(peer).same_peer(old(peer)),
            final(peer).rule() == looked_up(self@, old(peer).hostname(), old(peer).rule()),
    {
        proof {
            use_type_invariant(self);
            lemma_entries_map(self.items@);
        }
        if let HostRules::NoRule = peer.get_rule() {
            return;
        }
        let at: usize = position(&self.items, peer.get_hostname());
        if at < self.items.len() {
            assert(self.items@[at as int].0@ == peer.hostname());
            peer.set_rule(HostRules::GotRule(self.items[at].1.copy()));
        } else {
            peer.set_rule(HostRules::NoRule);
        }
    }
}

fn position(items: &Vec<(String, HostRuleSection)>, name: &str) -> (r: usize)
    ensures
        r <= items@.len(),
        r < items@.len() ==> items@[r as int].0@ == name@,
        r == items@.len() ==> !entries_map(items@).contains_key(name@),
{
    let mut i: usize = 0;
    while i < items.len()
        invariant
            i <= items@.len(),
            forall|j: int| 0 <= j < i ==> (#[trigger] items@[j]).0@ != name@,
        decreases items@.len() - i,
    {
        if same_text(items[i].0.as_str(), name) {
            return i;
        }
        i = i + 1;
    }
    i
}

/// A host with a rule has one that says something.
pub proof fn law_rules_say_something(sections: Seq<(String, HostRuleSection)>, host: Seq<char>)
    ensures
        rules_of(sections).contains_key(host) ==> says_something(rules_of(sections)[host]),
    decreases sections.len(),
{
    if sections.len() > 0 {
        law_rules_say_something(sections.drop_last(), host);
    }
}

/// Looking a host up again changes nothing.
pub proof fn law_lookup_is_idempotent(
    rules: Map<Seq<char>, SectionView>,
    hostname: Seq<char>,
    known: RulesView,
)
    ensures
        looked_up(rules, hostname, looked_up(rules, hostname, known)) == looked_up(
            rules,
            hostname,
            known,
        ),
        !(looked_up(rules, hostname, known) is Unknown),
{
}

/// The rule for a host is what the last section of its name says, among those that say
/// anything: that gives another name, a backend, or makes the host direct. Where no section
/// of its name says anything the host has no rule, and where none at all does there are no
/// rules.
pub proof fn law_last_section_counts(
    sections: Vec<(String, HostRuleSection)>,
    r: Option<HostRuler>,
    host: Seq<char>,
    i: int,
)
    requires
        call_ensures(HostRuler::new, (sections,), r),
    ensures
        0 <= i < sections@.len() && sections@[i].0@ == host && (sections@[i].1.rewrite is Some
            || sections@[i].1.backend is Some || sections@[i].1.direct) && (forall|j: int|
            i < j < sections@.len() ==> (#[trigger] sections@[j]).0@ != host || (
            sections@[j].1.rewrite is None && sections@[j].1.backend is None
                && !sections@[j].1.direct)) ==> (r matches Some(ruler) && ruler@.contains_key(host)
            && ruler@[host] == sections@[i].1@),
        (forall|j: int|
            0 <= j < sections@.len() ==> (#[trigger] sections@[j]).0@ != host || (
            sections@[j].1.rewrite is None && sections@[j].1.backend is None
                && !sections@[j].1.direct)) ==> (r matches Some(ruler)
            ==> !ruler@.contains_key(host)),
        (forall|j: int|
            0 <= j < sections@.len() ==> (#[trigger] sections@[j]).1.rewrite is None
                && sections@[j].1.backend is None && !sections@[j].1.direct) ==> r is None,
{
    if 0 <= i < sections@.len() && sections@[i].0@ == host && (sections@[i].1.rewrite is Some
        || sections@[i].1.backend is Some || sections@[i].1.direct) && (forall|j: int|
        i < j < sections@.len() ==> (#[trigger] sections@[j]).0@ != host || (
        sections@[j].1.rewrite is None && sections@[j].1.backend is None
            && !sections@[j].1.direct)) {
        lemma_last_section_counts(sections@, host, i);
    }
    if forall|j: int|
        0 <= j < sections@.len() ==> (#[trigger] sections@[j]).0@ != host || (
        sections@[j].1.rewrite is None && sections@[j].1.backend is None
            && !sections@[j].1.direct) {
        lemma_no_section_counts(sections@, host);
    }
    if forall|j: int|
        0 <= j < sections@.len() ==> (#[trigger] sections@[j]).1.rewrite is None
            && sections@[j].1.backend is None && !sections@[j].1.direct {
        assert forall|name: Seq<char>| !rules_of(sections@).contains_key(name) by {
            lemma_no_section_counts(sections@, name);
        }
        assert(rules_of(sections@) =~= Map::empty());
    }
}

proof fn lemma_last_section_counts(
    sections: Seq<(String, HostRuleSection)>,
    host: Seq<char>,
    i: int,
)
    requires
        0 <= i < sections.len(),
        sections[i].0@ == host,
        says_something(sections[i].1@),
        forall|j: int|
            i < j < sections.len() ==> (#[trigger] sections[j]).0@ != host || !says_something(
                sections[j].1@,
            ),
    ensures
        rules_of(sections).contains_key(host),
        rules_of(sections)[host] == sections[i].1@,
    decreases sections.len(),
{
    if i < sections.len() - 1 {
        let front = sections.drop_last();
        assert(sections[sections.len() - 1] == sections.last());
        assert(front[i] == sections[i]);
        assert forall|j: int| i < j < front.len() implies (#[trigger] front[j]).0@ != host
            || !says_something(front[j].1@) by {
            assert(front[j] == sections[j]);
        }
        lemma_last_section_counts(front, host, i);
    }
}

proof fn lemma_no_section_counts(sections: Seq<(String, HostRuleSection)>, host: Seq<char>)
    requires
        forall|j: int|
            0 <= j < sections.len() ==> (#[trigger] sections[j]).0@ != host || !says_something(
                sections[j].1@,
            ),
    ensures
        !rules_of(sections).contains_key(host),
    decreases sections.len(),
{
    if sections.len() > 0 {
        let front = sections.drop_last();
        assert(sections[sections.len() - 1] == sections.last());
        assert forall|j: int| 0 <= j < front.len() implies (#[trigger] front[j]).0@ != host
            || !says_something(front[j].1@) by {
            assert(front[j] == sections[j]);
        }
        lemma_no_section_counts(front, host);
    }
}

/// A peer gets the rule for the name of its host, with or without a port, and stays the same
/// peer. That there is no rule, once known, stays known.
pub proof fn law_rule_by_the_name_of_the_host(
    ruler: &HostRuler,
    peer: &mut PeerInfo,
    name: Seq<char>,
    port: Seq<char>,
)
    requires
        call_ensures(HostRuler::find_rule, (ruler, peer), ()),
        old(peer).host() == name + seq![':'] + port || old(peer).host() == name,
        forall|j: int| 0 <= j < port.len() ==> port[j] != ':',
        old(peer).host() == name ==> forall|j: int| 0 <= j < name.len() ==> name[j] != ':',
    ensures
        final(peer).host() == old(peer).host(),
        final(peer).addr() == old(peer).addr(),
        old(peer).rule() is NoRule ==> final(peer).rule() is NoRule,
        !(old(peer).rule() is NoRule) && ruler@.contains_key(name) ==> final(peer).rule()
            == RulesView::GotRule(ruler@[name]),
        !ruler@.contains_key(name) ==> final(peer).rule() is NoRule,
{
    lemma_hostname(old(peer).host(), name, port);
}

} // verus!
