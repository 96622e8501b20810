use vstd::prelude::*;

use crate::gateway::state::opt_view;

verus! {

/// Where a sandbox is running.
#[derive(Clone, Debug, PartialEq, Eq)]
pub struct PodInfo {
    pub pod_ip: String,
    pub namespace: String,
    pub name: String,
}

/// What the router reads of a watched Pod.
#[derive(Clone, Debug)]
pub struct PodSummary {
    pub phase: Option<String>,
    pub pod_ip: Option<String>,
    /// The Pod's labels, in key order.
    pub labels: Vec<(String, String)>,
    pub namespace: Option<String>,
    pub name: Option<String>,
}

pub type InfoView = (Seq<char>, Seq<char>, Seq<char>);

pub open spec fn info_view(p: PodInfo) -> InfoView {
    (p.pod_ip@, p.namespace@, p.name@)
}

/// The value of the first label called `key`.
pub open spec fn label_value(labels: Seq<(String, String)>, key: Seq<char>) -> Option<Seq<char>>
    decreases labels.len(),
{
    if labels.len() == 0 {
        None
    } else if labels[0].0@ == key {
        Some(labels[0].1@)
    } else {
        label_value(labels.drop_first(), key)
    }
}

/// The index entry a Pod contributes: a running Pod with an IP, the sandbox
/// label and a namespace is routed by its sandbox ID.
pub open spec fn pod_entry(p: PodSummary, label_key: Seq<char>) -> Option<(Seq<char>, InfoView)> {
    if opt_view(p.phase) == Some("Running"@) && p.pod_ip is Some && label_value(p.labels@, label_key) is Some
        && p.namespace is Some {
        Some((
            label_value(p.labels@, label_key)->0,
            (p.pod_ip->0@, p.namespace->0@, match p.name {
                Some(n) => n@,
                None => Seq::empty(),
            }),
        ))
    } else {
        None
    }
}

/// The Pod contributes an entry for sandbox ID `k`.
pub open spec fn entry_key_is(p: PodSummary, label_key: Seq<char>, k: Seq<char>) -> bool {
    match pod_entry(p, label_key) {
        Some(e) => e.0 == k,
        None => false,
    }
}

/// The index the Pods describe, later Pods overriding earlier ones.
pub open spec fn desired_index(pods: Seq<PodSummary>, label_key: Seq<char>) -> Map<Seq<char>, InfoView>
    decreases pods.len(),
{
    if pods.len() == 0 {
        Map::empty()
    } else {
        let m = desired_index(pods.drop_last(), label_key);
        match pod_entry(pods.last(), label_key) {
            Some((k, v)) => m.insert(k, v),
            None => m,
        }
    }
}

/// The map an index vector stands for.
pub open spec fn index_map(s: Seq<(String, PodInfo)>) -> Map<Seq<char>, InfoView>
    decreases s.len(),
{
    if s.len() == 0 {
        Map::empty()
    } else {
        index_map(s.drop_last()).insert(s.last().0@, info_view(s.last().1))
    }
}

/// No sandbox ID occurs twice.
pub open spec fn unique_keys(s: Seq<(String, PodInfo)>) -> bool {
    forall|i: int, j: int| 0 <= i < j < s.len() ==> #[trigger] s[i].0@ != #[trigger] s[j].0@
}

proof fn lemma_index_map_update(s: Seq<(String, PodInfo)>, i: int, e: (String, PodInfo))
    requires
        unique_keys(s),
        0 <= i < s.len(),
        s[i].0@ == e.0@,
    ensures
        index_map(s.update(i, e)) =~= index_map(s).insert(e.0@, info_view(e.1)),
    decreases s.len(),
{
    let t = s.update(i, e);
    if i == s.len() - 1 {
        assert(t.drop_last() =~= s.drop_last());
    } else {
        assert(t.drop_last() =~= s.drop_last().update(i, e));
        assert(unique_keys(s.drop_last()));
        lemma_index_map_update(s.drop_last(), i, e);
        assert(s[s.len() - 1].0@ != s[i].0@);
    }
}

proof fn lemma_index_map_lookup(s: Seq<(String, PodInfo)>, k: Seq<char>)
    requires
        unique_keys(s),
    ensures
        index_map(s).contains_key(k) <==> exists|i: int| 0 <= i < s.len() && #[trigger] s[i].0@ == k,
        forall|i: int| 0 <= i < s.len() && #[trigger] s[i].0@ == k ==> index_map(s)[k] == info_view(s[i].1),
    decreases s.len(),
{
    if s.len() > 0 {
        let d = s.drop_last();
        assert(unique_keys(d));
        lemma_index_map_lookup(d, k);
        if index_map(d).contains_key(k) {
            let w = choose|i: int| 0 <= i < d.len() && #[trigger] d[i].0@ == k;
            assert(s[w].0@ == k);
        }
        assert forall|i: int| 0 <= i < s.len() && #[trigger] s[i].0@ == k implies index_map(s)[k] == info_view(s[i].1) by {
            if i < s.len() - 1 {
                assert(d[i] == s[i]);
                assert(s.last().0@ != k);
            }
        }
        if exists|i: int| 0 <= i < s.len() && #[trigger] s[i].0@ == k {
            let w = choose|i: int| 0 <= i < s.len() && #[trigger] s[i].0@ == k;
            if w < s.len() - 1 {
                assert(d[w].0@ == k);
            }
        }
    }
}

fn label_lookup(labels: &Vec<(String, String)>, key: &Vec<char>) -> (r: Option<String>)
    ensures
        opt_view(r) == label_value(labels@, key@),
{
    let mut i: usize = 0;
    proof {
        assert(labels@.skip(0) =~= labels@);
    }
    while i < labels.len()
        invariant
            i <= labels@.len(),
            label_value(labels@, key@) == label_value(labels@.skip(i as int), key@),
        decreases labels@.len() - i,
    {
        let k = crate::text::to_chars(labels[i].0.as_str());
        proof {
            let t = labels@.skip(i as int);
            assert(t[0] == labels@[i as int]);
            assert(t.drop_first() =~= labels@.skip(i + 1));
        }
        if crate::text::chars_equal(&k, key) {
            return Some(labels[i].1.clone());
        }
        i = i + 1;
    }
    proof {
        assert(labels@.skip(i as int) =~= Seq::<(String, String)>::empty());
    }
    None
}

fn text_is(value: &Option<String>, lit: &str) -> (r: bool)
    ensures
        r == (opt_view(*value) == Some(lit@)),
{
    match value {
        Some(v) => {
            let a = crate::text::to_chars(v.as_str());
            let b = crate::text::to_chars(lit);
            crate::text::chars_equal(&a, &b)
        },
        None => false,
    }
}

/// The index entry of one Pod, if it is routable.
pub fn pod_index_entry(pod: &PodSummary, label_key: &str) -> (r: Option<(String, PodInfo)>)
    ensures
        match r {
            Some(e) => pod_entry(*pod, label_key@) == Some((e.0@, info_view(e.1))),
            None => pod_entry(*pod, label_key@) is None,
        },
{
    if !text_is(&pod.phase, "Running") {
        return None;
    }
    let ip = match &pod.pod_ip {
        Some(ip) => ip,
        None => return None,
    };
    let key = crate::text::to_chars(label_key);
    let id = match label_lookup(&pod.labels, &key) {
        Some(id) => id,
        None => return None,
    };
    let ns = match &pod.namespace {
        Some(ns) => ns,
        None => return None,
    };
    let name = match &pod.name {
        Some(n) => n.clone(),
        None => String::new(),
    };
    Some((id, PodInfo { pod_ip: ip.clone(), namespace: ns.clone(), name }))
}

fn find_key(index: &Vec<(String, PodInfo)>, key: &String) -> (r: Option<usize>)
    ensures
        match r {
            Some(i) => i < index@.len() && index@[i as int].0@ == key@,
            None => forall|i: int| 0 <= i < index@.len() ==> #[trigger] index@[i].0@ != key@,
        },
{
    let k = crate::text::to_chars(key.as_str());
    let mut i: usize = 0;
    while i < index.len()
        invariant
            i <= index@.len(),
            k@ == key@,
            forall|j: int| 0 <= j < i ==> #[trigger] index@[j].0@ != key@,
        decreases index@.len() - i,
    {
        let e = crate::text::to_chars(index[i].0.as_str());
        if crate::text::chars_equal(&e, &k) {
            return Some(i);
        }
        i = i + 1;
    }
    None
}

/// The sandbox index the watched Pods describe: each running Pod with an IP,
/// the sandbox label and a namespace, keyed by its sandbox ID (a later Pod
/// with the same ID wins). Entries of Pods that are gone or no longer
/// routable are absent, whatever the index held before.
pub fn rebuild_index(pods: &Vec<PodSummary>, label_key: &str) -> (r: Vec<(String, PodInfo)>)
    ensures
        unique_keys(r@),
        index_map(r@) == desired_index(pods@, label_key@),
{
    let mut out: Vec<(String, PodInfo)> = Vec::new();
    let mut i: usize = 0;
    while i < pods.len()
        invariant
            i <= pods@.len(),
            unique_keys(out@),
            index_map(out@) == desired_index(pods@.take(i as int), label_key@),
        decreases pods@.len() - i,
    {
        let entry = pod_index_entry(&pods[i], label_key);
        proof {
            let t = pods@.take(i + 1);
            assert(t.drop_last() =~= pods@.take(i as int));
            assert(t.last() == pods@[i as int]);
        }
        match entry {
            Some(e) => {
                let ghost before = out@;
                match find_key(&out, &e.0) {
                    Some(j) => {
                        proof {
                            lemma_index_map_update(out@, j as int, e);
                        }
                        out.set(j, e);
                        proof {
                            assert(out@ == before.update(j as int, e));
                            assert forall|a: int, b: int| 0 <= a < b < out@.len() implies #[trigger] out@[a].0@ != #[trigger] out@[b].0@ by {
                                if a != j && b != j {
                                    assert(before[a].0@ != before[b].0@);
                                } else if a == j {
                                    assert(before[a].0@ != before[b].0@);
                                } else {
                                    assert(before[a].0@ != before[b].0@);
                                }
                            }
                        }
                    },
                    None => {
                        out.push(e);
                        proof {
                            assert(out@.drop_last() =~= before);
                        }
                    },
                }
            },
            None => {},
        }
        i = i + 1;
    }
    proof {
        assert(pods@.take(pods@.len() as int) =~= pods@);
    }
    out
}

fn copy_info(p: &PodInfo) -> (r: PodInfo)
    ensures
        r == *p,
{
    PodInfo { pod_ip: p.pod_ip.clone(), namespace: p.namespace.clone(), name: p.name.clone() }
}

/// Where the sandbox with ID `sandbox_id` runs, according to the index.
pub fn lookup(index: &Vec<(String, PodInfo)>, sandbox_id: &String) -> (r: Option<PodInfo>)
    requires
        unique_keys(index@),
    ensures
        match r {
            Some(p) => index_map(index@).contains_key(sandbox_id@) && index_map(index@)[sandbox_id@] == info_view(p),
            None => !index_map(index@).contains_key(sandbox_id@),
        },
{
    proof {
        lemma_index_map_lookup(index@, sandbox_id@);
    }
    match find_key(index, sandbox_id) {
        Some(i) => Some(copy_info(&index[i].1)),
        None => None,
    }
}

/// Refreshing the index never depends on what it held before: two routers
/// that saw the same Pods route every sandbox the same way.
pub proof fn law_index_refresh_forgets_stale_entries(pods: Seq<PodSummary>, label_key: Seq<char>, a: Seq<(String, PodInfo)>, b: Seq<(String, PodInfo)>)
    requires
        index_map(a) == desired_index(pods, label_key),
        index_map(b) == desired_index(pods, label_key),
    ensures
        index_map(a) == index_map(b),
        forall|k: Seq<char>| #[trigger] index_map(a).contains_key(k) ==> exists|i: int| 0 <= i < pods.len() && #[trigger] entry_key_is(pods[i], label_key, k),
{
    lemma_desired_keys(pods, label_key);
}

proof fn lemma_desired_keys(pods: Seq<PodSummary>, label_key: Seq<char>)
    ensures
        forall|k: Seq<char>| #[trigger] desired_index(pods, label_key).contains_key(k) ==> exists|i: int| 0 <= i < pods.len() && #[trigger] entry_key_is(pods[i], label_key, k),
    decreases pods.len(),
{
    if pods.len() > 0 {
        let d = pods.drop_last();
        lemma_desired_keys(d, label_key);
        assert forall|k: Seq<char>| #[trigger] desired_index(pods, label_key).contains_key(k) implies exists|i: int| 0 <= i < pods.len() && #[trigger] entry_key_is(pods[i], label_key, k) by {
            if desired_index(d, label_key).contains_key(k) {
                let i = choose|i: int| 0 <= i < d.len() && #[trigger] entry_key_is(d[i], label_key, k);
                assert(pods[i] == d[i]);
            } else {
                assert(pods[pods.len() - 1] == pods.last());
                assert(entry_key_is(pods[pods.len() - 1], label_key, k));
            }
        }
    }
}

/// Only a Pod whose phase is exactly `Running` is routed, and only with its
/// IP, its namespace and the sandbox ID of its label; a running Pod that has
/// an IP, the label and a namespace always is.
pub proof fn law_only_running_pods_are_routed(p: PodSummary, label_key: Seq<char>)
    ensures
        pod_entry(p, label_key) matches Some((k, v)) ==> {
            &&& p.phase matches Some(phase) && phase@ == "Running"@
            &&& p.pod_ip matches Some(ip) && v.0 == ip@
            &&& p.namespace matches Some(ns) && v.1 == ns@
            &&& label_value(p.labels@, label_key) == Some(k)
        },
        (p.phase matches Some(phase) && phase@ == "Running"@) && p.pod_ip is Some && p.namespace is Some
            && label_value(p.labels@, label_key) is Some ==> pod_entry(p, label_key) is Some,
        !(p.phase matches Some(phase) && phase@ == "Running"@) ==> pod_entry(p, label_key) is None,
{
}

} // verus!
