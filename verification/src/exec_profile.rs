//! Execution profiles, and the map from their names.
use vstd::prelude::*;
use vstd::string::*;
use scylla::client::execution_profile::ExecutionProfileBuilder;
use crate::contact_points::texts;
use crate::driver::{
    new_profile_builder, profile_consistency, profile_no_speculative_execution, profile_options,
    profile_request_timeout, profile_retry_policy, profile_serial_consistency,
    profile_speculative_execution,
};
use crate::load_balancing::{LoadBalancingConfig, LoadBalancingConfigView};
use crate::types::{CassRetryPolicy, Consistency, SerialConsistency};

verus! {

/// How often, and how far apart, a statement is sent again before an answer
/// came.
#[derive(Clone, Copy, Debug, PartialEq, Eq, Structural)]
pub struct SpeculativeExecution {
    pub max_retry_count: usize,
    pub retry_interval_ms: u64,
}

/// The options of an execution profile. An option that is `None` was never
/// set, and the driver's own default holds for it.
#[derive(Debug)]
pub struct ExecutionProfileSettings {
    pub consistency: Option<Consistency>,
    pub serial_consistency: Option<Option<SerialConsistency>>,
    /// `Some(None)` waits for an answer without limit.
    pub request_timeout_ms: Option<Option<u64>>,
    pub retry_policy: Option<CassRetryPolicy>,
    /// `Some(None)` never sends a statement again.
    pub speculative_execution: Option<Option<SpeculativeExecution>>,
}

impl ExecutionProfileSettings {
    /// Settings of which none was set.
    pub open spec fn unset() -> Self {
        ExecutionProfileSettings {
            consistency: None,
            serial_consistency: None,
            request_timeout_ms: None,
            retry_policy: None,
            speculative_execution: None,
        }
    }

    /// Settings of which none was set.
    pub fn new() -> (settings: Self)
        ensures
            settings == Self::unset(),
    {
        ExecutionProfileSettings {
            consistency: None,
            serial_consistency: None,
            request_timeout_ms: None,
            retry_policy: None,
            speculative_execution: None,
        }
    }

    /// The driver's builder of execution profiles, with these settings and no
    /// others.
    pub fn to_builder(&self) -> (builder: ExecutionProfileBuilder)
        ensures
            profile_options(builder) == *self,
    {
        let mut builder = new_profile_builder();
        if let Some(consistency) = self.consistency {
            builder = profile_consistency(builder, consistency);
        }
        if let Some(consistency) = self.serial_consistency {
            builder = profile_serial_consistency(builder, consistency);
        }
        if let Some(timeout_ms) = self.request_timeout_ms {
            builder = profile_request_timeout(builder, timeout_ms);
        }
        if let Some(policy) = &self.retry_policy {
            builder = profile_retry_policy(builder, policy.clone());
        }
        match self.speculative_execution {
            Some(Some(policy)) => {
                builder = profile_speculative_execution(builder, policy);
            },
            Some(None) => {
                builder = profile_no_speculative_execution(builder);
            },
            None => {},
        }
        builder
    }
}

impl Clone for ExecutionProfileSettings {
    fn clone(&self) -> (res: Self)
        ensures
            res == *self,
    {
        ExecutionProfileSettings {
            consistency: self.consistency,
            serial_consistency: self.serial_consistency,
            request_timeout_ms: self.request_timeout_ms,
            retry_policy: match &self.retry_policy {
                Some(policy) => Some(policy.clone()),
                None => None,
            },
            speculative_execution: self.speculative_execution,
        }
    }
}

/// An execution profile as callers hold it.
#[derive(Debug)]
pub struct CassExecProfile {
    pub settings: ExecutionProfileSettings,
    pub load_balancing_config: LoadBalancingConfig,
}

/// A [`CassExecProfile`] with texts in place of strings.
pub struct CassExecProfileView {
    pub settings: ExecutionProfileSettings,
    pub load_balancing_config: LoadBalancingConfigView,
}

impl View for CassExecProfile {
    type V = CassExecProfileView;

    open spec fn view(&self) -> CassExecProfileView {
        CassExecProfileView {
            settings: self.settings,
            load_balancing_config: self.load_balancing_config@,
        }
    }
}

impl Clone for CassExecProfile {
    fn clone(&self) -> (res: Self)
        ensures
            res@ == self@,
            res.settings == self.settings,
            res.load_balancing_config@ == self.load_balancing_config@,
    {
        CassExecProfile {
            settings: self.settings.clone(),
            load_balancing_config: self.load_balancing_config.clone(),
        }
    }
}

/// A profile of which no option was set.
pub fn cass_execution_profile_new() -> (profile: CassExecProfile)
    ensures
        profile@ == (CassExecProfileView {
            settings: ExecutionProfileSettings::unset(),
            load_balancing_config: LoadBalancingConfigView::initial(),
        }),
        profile.settings == ExecutionProfileSettings::unset(),
        profile.load_balancing_config@ == LoadBalancingConfigView::initial(),
{
    CassExecProfile {
        settings: ExecutionProfileSettings::new(),
        load_balancing_config: LoadBalancingConfig::default(),
    }
}

/// The name of an execution profile: any text but the empty one.
#[derive(Debug)]
pub struct ExecProfileName {
    name: String,
}

impl View for ExecProfileName {
    type V = Seq<char>;

    closed spec fn view(&self) -> Seq<char> {
        self.name@
    }
}

impl ExecProfileName {
    #[verifier::type_invariant]
    spec fn is_not_empty(&self) -> bool {
        self.name@.len() > 0
    }

    /// The name with this text, unless the text is empty.
    pub fn try_from(name: String) -> (res: Result<ExecProfileName, ()>)
        ensures
            res is Ok <==> name@.len() > 0,
            res matches Ok(profile_name) ==> profile_name@ == name@,
    {
        if name.as_str().is_empty() {
            Err(())
        } else {
            Ok(ExecProfileName { name })
        }
    }
}

impl Clone for ExecProfileName {
    fn clone(&self) -> (res: Self)
        ensures
            res@ == self@,
    {
        proof {
            use_type_invariant(self);
        }
        ExecProfileName { name: self.name.clone() }
    }
}

/// Execution profiles by name.
pub struct ExecutionProfileMap {
    entries: Vec<(ExecProfileName, CassExecProfile)>,
}

/// The map that a list of entries stands for; a later entry replaces an
/// earlier one of the same name.
spec fn map_of(entries: Seq<(ExecProfileName, CassExecProfile)>) -> Map<
    Seq<char>,
    CassExecProfileView,
>
    decreases entries.len(),
{
    if entries.len() == 0 {
        Map::empty()
    } else {
        map_of(entries.drop_last()).insert(entries.last().0@, entries.last().1@)
    }
}

/// No name is empty and none stands twice.
spec fn names_distinct(entries: Seq<(ExecProfileName, CassExecProfile)>) -> bool {
    &&& forall|i: int| 0 <= i < entries.len() ==> (#[trigger] entries[i]).0@.len() > 0
    &&& forall|i: int, j: int|
        #![trigger entries[i], entries[j]]
        0 <= i < j < entries.len() ==> entries[i].0@ != entries[j].0@
}

impl View for ExecutionProfileMap {
    type V = Map<Seq<char>, CassExecProfileView>;

    closed spec fn view(&self) -> Map<Seq<char>, CassExecProfileView> {
        map_of(self.entries@)
    }
}

proof fn lemma_map_of(entries: Seq<(ExecProfileName, CassExecProfile)>)
    requires
        names_distinct(entries),
    ensures
        map_of(entries).dom().finite(),
        map_of(entries).len() == entries.len(),
        forall|i: int|
            0 <= i < entries.len() ==> map_of(entries).contains_key((#[trigger] entries[i]).0@)
                && map_of(entries)[entries[i].0@] == entries[i].1@,
        forall|name: Seq<char>| #[trigger]
            map_of(entries).contains_key(name) ==> exists|i: int|
                0 <= i < entries.len() && (#[trigger] entries[i]).0@ == name,
    decreases entries.len(),
{
    if entries.len() > 0 {
        let front = entries.drop_last();
        let last = entries.last();
        assert(names_distinct(front)) by {
            assert(forall|i: int| 0 <= i < front.len() ==> front[i] == entries[i]);
        }
        lemma_map_of(front);
        if map_of(front).contains_key(last.0@) {
            let i = choose|i: int| 0 <= i < front.len() && (#[trigger] front[i]).0@ == last.0@;
            assert(entries[i].0@ != entries[entries.len() - 1].0@);
        }
        assert forall|i: int| 0 <= i < entries.len() implies map_of(entries).contains_key(
            (#[trigger] entries[i]).0@,
        ) && map_of(entries)[entries[i].0@] == entries[i].1@ by {
            if i < front.len() {
                assert(front[i] == entries[i]);
                assert(entries[i].0@ != entries[entries.len() - 1].0@);
            }
        }
        assert forall|name: Seq<char>| #[trigger]
            map_of(entries).contains_key(name) implies exists|i: int|
            0 <= i < entries.len() && (#[trigger] entries[i]).0@ == name by {
            if name == last.0@ {
                assert(entries[entries.len() - 1].0@ == name);
            } else {
                let i = choose|i: int| 0 <= i < front.len() && (#[trigger] front[i]).0@ == name;
                assert(entries[i].0@ == name);
            }
        }
    }
}

proof fn lemma_map_of_update(
    entries: Seq<(ExecProfileName, CassExecProfile)>,
    i: int,
    profile: CassExecProfile,
)
    requires
        names_distinct(entries),
        0 <= i < entries.len(),
    ensures
        names_distinct(entries.update(i, (entries[i].0, profile))),
        map_of(entries.update(i, (entries[i].0, profile))) == map_of(entries).insert(
            entries[i].0@,
            profile@,
        ),
{
    let updated = entries.update(i, (entries[i].0, profile));
    assert(forall|j: int| 0 <= j < entries.len() ==> (#[trigger] updated[j]).0 == entries[j].0);
    lemma_map_of(entries);
    lemma_map_of(updated);
    let before = map_of(entries).insert(entries[i].0@, profile@);
    assert forall|name: Seq<char>| map_of(updated).contains_key(name) == before.contains_key(
        name,
    ) by {
        if map_of(updated).contains_key(name) {
            let j = choose|j: int| 0 <= j < updated.len() && (#[trigger] updated[j]).0@ == name;
            assert(entries[j].0@ == name);
        }
        if map_of(entries).contains_key(name) {
            let j = choose|j: int| 0 <= j < entries.len() && (#[trigger] entries[j]).0@ == name;
            assert(updated[j].0@ == name);
        }
        assert(updated[i].0@ == entries[i].0@);
    }
    assert forall|name: Seq<char>| map_of(updated).contains_key(name) implies map_of(
        updated,
    )[name] == before[name] by {
        let j = choose|j: int| 0 <= j < updated.len() && (#[trigger] updated[j]).0@ == name;
        assert(entries[j].0@ == name);
        assert(updated[i].0@ == entries[i].0@);
        if j != i {
            assert(updated[j] == entries[j]);
        }
    }
    assert(map_of(updated) =~= before);
}

/// Entries with the same names and profiles stand for the same map.
proof fn lemma_map_of_copy(
    entries: Seq<(ExecProfileName, CassExecProfile)>,
    copy: Seq<(ExecProfileName, CassExecProfile)>,
)
    requires
        entries.len() == copy.len(),
        forall|i: int|
            0 <= i < entries.len() ==> (#[trigger] copy[i]).0@ == entries[i].0@ && copy[i].1@
                == entries[i].1@,
    ensures
        map_of(copy) == map_of(entries),
    decreases entries.len(),
{
    if entries.len() > 0 {
        lemma_map_of_copy(entries.drop_last(), copy.drop_last());
    }
}

impl Clone for ExecutionProfileMap {
    fn clone(&self) -> (res: Self)
        ensures
            res@ == self@,
            res.wf() == self.wf(),
    {
        let mut entries: Vec<(ExecProfileName, CassExecProfile)> = Vec::new();
        let mut i: usize = 0;
        while i < self.entries.len()
            invariant
                i <= self.entries@.len(),
                entries@.len() == i,
                forall|j: int|
                    0 <= j < i ==> (#[trigger] entries@[j]).0@ == self.entries@[j].0@
                        && entries@[j].1@ == self.entries@[j].1@,
            decreases self.entries@.len() - i,
        {
            let entry: &(ExecProfileName, CassExecProfile) = &self.entries[i];
            entries.push((entry.0.clone(), entry.1.clone()));
            i = i + 1;
        }
        proof {
            lemma_map_of_copy(self.entries@, entries@);
            assert(forall|j: int|
                0 <= j < i ==> (#[trigger] self.entries@[j]).0@ == entries@[j].0@);
        }
        ExecutionProfileMap { entries }
    }
}

impl ExecutionProfileMap {
    /// No name is empty and none stands for two profiles.
    pub closed spec fn wf(&self) -> bool {
        names_distinct(self.entries@)
    }

    /// A map without profiles.
    pub fn new() -> (map: Self)
        ensures
            map.wf(),
            map@ == Map::<Seq<char>, CassExecProfileView>::empty(),
    {
        ExecutionProfileMap { entries: Vec::new() }
    }

    /// How many profiles there are.
    pub fn len(&self) -> (len: usize)
        requires
            self.wf(),
        ensures
            self@.dom().finite(),
            len == self@.len(),
    {
        proof {
            lemma_map_of(self.entries@);
        }
        self.entries.len()
    }

    /// Whether there is no profile.
    pub fn is_empty(&self) -> (empty: bool)
        requires
            self.wf(),
        ensures
            empty == (self@ == Map::<Seq<char>, CassExecProfileView>::empty()),
    {
        proof {
            lemma_map_of(self.entries@);
            if self.entries@.len() > 0 {
                assert(self@.contains_key(self.entries@[0].0@));
            }
        }
        self.entries.len() == 0
    }

    /// The place of the entry with this name.
    fn position(&self, name: &ExecProfileName) -> (position: Option<usize>)
        ensures
            match position {
                Some(i) => i < self.entries@.len() && self.entries@[i as int].0@ == name@,
                None => forall|i: int|
                    0 <= i < self.entries@.len() ==> (#[trigger] self.entries@[i]).0@ != name@,
            },
    {
        let mut i: usize = 0;
        while i < self.entries.len()
            invariant
                i <= self.entries@.len(),
                forall|j: int| 0 <= j < i ==> (#[trigger] self.entries@[j]).0@ != name@,
            decreases self.entries@.len() - i,
        {
            if self.entries[i].0.name == name.name {
                return Some(i);
            }
            i = i + 1;
        }
        None
    }

    /// The profile of this name.
    pub fn get(&self, name: &ExecProfileName) -> (profile: Option<&CassExecProfile>)
        requires
            self.wf(),
        ensures
            profile is Some <==> self@.contains_key(name@),
            profile matches Some(p) ==> p@ == self@[name@],
    {
        proof {
            lemma_map_of(self.entries@);
        }
        match self.position(name) {
            Some(i) => Some(&self.entries[i].1),
            None => None,
        }
    }

    /// Gives `name` to `profile`; a profile that had the name before loses it.
    pub fn insert(&mut self, name: ExecProfileName, profile: CassExecProfile)
        requires
            old(self).wf(),
        ensures
            final(self).wf(),
            final(self)@ == old(self)@.insert(name@, profile@),
    {
        proof {
            use_type_invariant(&name);
        }
        match self.position(&name) {
            Some(i) => {
                proof {
                    lemma_map_of_update(self.entries@, i as int, profile);
                }
                self.entries[i].1 = profile;
                assert(self.entries@ == old(self).entries@.update(
                    i as int,
                    (old(self).entries@[i as int].0, profile),
                ));
            },
            None => {
                self.entries.push((name, profile));
                assert(self.entries@.drop_last() == old(self).entries@);
            },
        }
    }

    /// The names, in the order in which they were first given.
    pub fn keys(&self) -> (names: Vec<String>)
        requires
            self.wf(),
        ensures
            texts(names@).no_duplicates(),
            texts(names@).to_set() == self@.dom(),
    {
        let mut names: Vec<String> = Vec::new();
        let mut i: usize = 0;
        while i < self.entries.len()
            invariant
                i <= self.entries@.len(),
                names@.len() == i,
                forall|j: int| 0 <= j < i ==> (#[trigger] names@[j])@ == self.entries@[j].0@,
            decreases self.entries@.len() - i,
        {
            names.push(self.entries[i].0.name.clone());
            i = i + 1;
        }
        proof {
            lemma_map_of(self.entries@);
            let listed = texts(names@);
            assert forall|a: int, b: int|
                0 <= a < listed.len() && 0 <= b < listed.len() && a != b implies listed[a]
                != listed[b] by {
                let low = self.entries@[if a < b {
                    a
                } else {
                    b
                }];
                let high = self.entries@[if a < b {
                    b
                } else {
                    a
                }];
                assert(low.0@ != high.0@);
            }
            assert forall|name: Seq<char>| listed.to_set().contains(name) == self@.dom().contains(
                name,
            ) by {
                if self@.contains_key(name) {
                    let j = choose|j: int|
                        0 <= j < self.entries@.len() && (#[trigger] self.entries@[j]).0@ == name;
                    assert(listed[j] == name);
                }
                if listed.contains(name) {
                    let j = choose|j: int| 0 <= j < listed.len() && listed[j] == name;
                    assert(self.entries@[j].0@ == name);
                }
            }
            assert(listed.to_set() =~= self@.dom());
        }
        names
    }
}

} // verus!
