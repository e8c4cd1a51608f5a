//! The credential store: per-host credentials, how a token is found for a
//! host, and how the profile document is encoded, decoded and migrated.

use vstd::prelude::*;
use crate::error::Error;
use crate::value::{
    Value, field, member, as_str, as_opt_str, str_eq, lemma_member_push, lemma_member_update,
    lemma_member_absent,
};

verus! {

/// The credentials of one self-hosted GitLab instance.
pub struct GitLabSelfHostedConfig {
    pub host: String,
    pub token: String,
}

/// GitHub credentials: an OAuth token, or a username with a token for basic
/// authentication.
pub struct GitHubConfig {
    pub access_token: Option<String>,
    pub username: Option<String>,
    pub token: Option<String>,
}

/// All stored credentials.
pub struct Profile {
    pub gitlab_self_hosted: Option<Vec<GitLabSelfHostedConfig>>,
    pub github: Option<GitHubConfig>,
}

/// A host and its token.
pub type HostEntry = (Seq<char>, Seq<char>);

/// What GitHub credentials hold.
pub struct GitHubView {
    pub access_token: Option<Seq<char>>,
    pub username: Option<Seq<char>>,
    pub token: Option<Seq<char>>,
}

/// What a profile holds.
pub struct ProfileView {
    pub gitlab: Option<Seq<HostEntry>>,
    pub github: Option<GitHubView>,
}

pub open spec fn opt_view(s: Option<String>) -> Option<Seq<char>> {
    match s {
        Some(s) => Some(s@),
        None => None,
    }
}

pub open spec fn entry_view(c: GitLabSelfHostedConfig) -> HostEntry {
    (c.host@, c.token@)
}

impl View for GitHubConfig {
    type V = GitHubView;

    open spec fn view(&self) -> GitHubView {
        GitHubView {
            access_token: opt_view(self.access_token),
            username: opt_view(self.username),
            token: opt_view(self.token),
        }
    }
}

impl View for Profile {
    type V = ProfileView;

    open spec fn view(&self) -> ProfileView {
        ProfileView {
            gitlab: match self.gitlab_self_hosted {
                Some(cs) => Some(cs@.map_values(|c: GitLabSelfHostedConfig| entry_view(c))),
                None => None,
            },
            github: match self.github {
                Some(g) => Some(g@),
                None => None,
            },
        }
    }
}

/// The token stored for `host`: the entry whose host equals it exactly.
pub open spec fn token_for(entries: Seq<HostEntry>, host: Seq<char>) -> Option<Seq<char>>
    decreases entries.len(),
{
    if entries.len() == 0 {
        None
    } else if entries[0].0 == host {
        Some(entries[0].1)
    } else {
        token_for(entries.drop_first(), host)
    }
}

/// The GitLab token of a profile for `host`.
pub open spec fn gitlab_token(p: ProfileView, host: Seq<char>) -> Option<Seq<char>> {
    match p.gitlab {
        Some(es) => token_for(es, host),
        None => None,
    }
}

/// No two GitLab entries share a host.
pub open spec fn hosts_unique(entries: Seq<HostEntry>) -> bool {
    forall|i: int, j: int| 0 <= i < j < entries.len() ==> (#[trigger] entries[i]).0 != (#[trigger] entries[j]).0
}

impl Profile {
    /// The credential store's invariant: at most one entry per GitLab host.
    pub open spec fn wf(&self) -> bool {
        match self@.gitlab {
            Some(es) => hosts_unique(es),
            None => true,
        }
    }

    /// An empty profile.
    pub fn new() -> (r: Self)
        ensures
            r@.gitlab is None,
            r@.github is None,
            r.wf(),
    {
        Profile { gitlab_self_hosted: None, github: None }
    }

    /// The token stored for GitLab host `host`, matched exactly.
    pub fn get_gitlab_token_by_host(&self, host: &str) -> (r: Option<String>)
        ensures
            opt_view(r) == gitlab_token(self@, host@),
    {
        match &self.gitlab_self_hosted {
            Some(configs) => {
                let ghost es = self@.gitlab->0;
                let mut i: usize = 0;
                assert(es.subrange(0, es.len() as int) == es);
                while i < configs.len()
                    invariant
                        es == configs@.map_values(|c: GitLabSelfHostedConfig| entry_view(c)),
                        self@.gitlab == Some(es),
                        i <= configs@.len(),
                        token_for(es, host@) == token_for(es.subrange(i as int, es.len() as int), host@),
                    decreases configs.len() - i,
                {
                    let ghost rest = es.subrange(i as int, es.len() as int);
                    assert(rest.drop_first() == es.subrange(i + 1, es.len() as int));
                    assert(rest[0] == entry_view(configs@[i as int]));
                    if str_eq(configs[i].host.as_str(), host) {
                        return Some(configs[i].token.clone());
                    }
                    i = i + 1;
                }
                None
            },
            None => None,
        }
    }
}

/// The entries after storing `e`: the first entry with its host takes its
/// token, or, when there is none, `e` is appended.
pub open spec fn entries_with(es: Seq<HostEntry>, e: HostEntry) -> Seq<HostEntry> {
    if exists|i: int| 0 <= i < es.len() && (#[trigger] es[i]).0 == e.0 {
        let i = choose|i: int| 0 <= i < es.len() && es[i].0 == e.0 && forall|j: int|
            0 <= j < i ==> (#[trigger] es[j]).0 != e.0;
        es.update(i, e)
    } else {
        es.push(e)
    }
}

/// Looking a host up finds nothing when no entry has exactly that host, and
/// finds the stored token when one entry has exactly that host; whatever it
/// finds belongs to an entry whose host is exactly the one asked for.
pub proof fn law_token_lookup(entries: Seq<HostEntry>, host: Seq<char>)
    requires
        hosts_unique(entries),
    ensures
        (forall|i: int| 0 <= i < entries.len() ==> (#[trigger] entries[i]).0 != host) ==> token_for(
            entries,
            host,
        ) is None,
        forall|i: int| 0 <= i < entries.len() && (#[trigger] entries[i]).0 == host ==> token_for(
            entries,
            host,
        ) == Some(entries[i].1),
        token_for(entries, host) matches Some(t) ==> exists|i: int| 0 <= i < entries.len()
            && (#[trigger] entries[i]).0 == host && entries[i].1 == t,
    decreases entries.len(),
{
    if entries.len() > 0 {
        let rest = entries.drop_first();
        assert(hosts_unique(rest)) by {
            assert forall|i: int, j: int| 0 <= i < j < rest.len() implies (#[trigger] rest[i]).0 != (
            #[trigger] rest[j]).0 by {
                assert(rest[i] == entries[i + 1] && rest[j] == entries[j + 1]);
            }
        }
        law_token_lookup(rest, host);
        assert forall|i: int| 0 <= i < entries.len() && (#[trigger] entries[i]).0 == host implies token_for(
            entries,
            host,
        ) == Some(entries[i].1) by {
            if i > 0 {
                assert(rest[i - 1] == entries[i]);
                assert(entries[0].0 != entries[i].0);
            }
        }
        if entries[0].0 != host {
            assert((forall|i: int| 0 <= i < entries.len() ==> (#[trigger] entries[i]).0 != host) ==> (
            forall|i: int| 0 <= i < rest.len() ==> (#[trigger] rest[i]).0 != host)) by {
                if forall|i: int| 0 <= i < entries.len() ==> (#[trigger] entries[i]).0 != host {
                    assert forall|i: int| 0 <= i < rest.len() implies (#[trigger] rest[i]).0 != host by {
                        assert(rest[i] == entries[i + 1]);
                    }
                }
            }
            if token_for(rest, host) is Some {
                let t = token_for(rest, host)->0;
                let k = choose|k: int| 0 <= k < rest.len() && (#[trigger] rest[k]).0 == host && rest[k].1 == t;
                assert(entries[k + 1] == rest[k]);
            }
        }
    }
}

impl GitLabSelfHostedConfig {
    /// Stores these credentials in the profile: the entry for the same host
    /// takes the new token, else the entry is added.
    pub fn fill_profile(&self, profile: &mut Profile)
        ensures
            final(profile)@.github == old(profile)@.github,
            final(profile)@.gitlab == Some(
                match old(profile)@.gitlab {
                    Some(es) => entries_with(es, entry_view(*self)),
                    None => seq![entry_view(*self)],
                },
            ),
            old(profile).wf() ==> final(profile).wf(),
    {
        let entry = GitLabSelfHostedConfig { host: self.host.clone(), token: self.token.clone() };
        let ghost e = entry_view(*self);
        let ghost old_view = profile@;
        match profile.gitlab_self_hosted.take() {
            None => {
                let v = vec![entry];
                assert(v@.map_values(|c: GitLabSelfHostedConfig| entry_view(c)) =~= seq![e]);
                profile.gitlab_self_hosted = Some(v);
            },
            Some(configs) => {
                let mut configs = configs;
                let ghost es = old_view.gitlab->0;
                let mut i: usize = 0;
                let mut found = false;
                while i < configs.len() && !found
                    invariant
                        es == configs@.map_values(|c: GitLabSelfHostedConfig| entry_view(c)),
                        e == entry_view(*self),
                        i <= configs@.len(),
                        found ==> i < configs@.len() && es[i as int].0 == e.0,
                        forall|j: int| 0 <= j < i ==> (#[trigger] es[j]).0 != e.0,
                    decreases configs.len() - i + (if found { 0int } else { 1int }),
                {
                    if str_eq(configs[i].host.as_str(), self.host.as_str()) {
                        found = true;
                    } else {
                        i = i + 1;
                    }
                }
                if found {
                    assert(es[i as int].0 == e.0);
                    let _ = configs.remove(i);
                    configs.insert(i, entry);
                    assert(configs@.map_values(|c: GitLabSelfHostedConfig| entry_view(c)) =~= es.update(
                        i as int,
                        e,
                    ));
                    let ghost k = choose|k: int| 0 <= k < es.len() && es[k].0 == e.0 && forall|j: int|
                        0 <= j < k ==> (#[trigger] es[j]).0 != e.0;
                    assert(k == i) by {
                        if k < i {
                            assert(es[k].0 != e.0);
                        }
                        if k > i {
                            assert(es[i as int].0 != e.0);
                        }
                    }
                    assert(entries_with(es, e) == es.update(i as int, e));
                    proof {
                        if hosts_unique(es) {
                            let ns = es.update(i as int, e);
                            assert forall|a: int, b: int| 0 <= a < b < ns.len() implies (#[trigger] ns[a]).0 != (
                            #[trigger] ns[b]).0 by {
                                assert(es[a].0 != es[b].0);
                            }
                        }
                    }
                } else {
                    configs.push(entry);
                    assert(configs@.map_values(|c: GitLabSelfHostedConfig| entry_view(c)) =~= es.push(e));
                    assert(entries_with(es, e) == es.push(e));
                    proof {
                        if hosts_unique(es) {
                            let ns = es.push(e);
                            assert forall|a: int, b: int| 0 <= a < b < ns.len() implies (#[trigger] ns[a]).0 != (
                            #[trigger] ns[b]).0 by {
                                if b == es.len() {
                                    assert(ns[a] == es[a]);
                                } else {
                                    assert(ns[a] == es[a] && ns[b] == es[b]);
                                }
                            }
                        }
                    }
                }
                profile.gitlab_self_hosted = Some(configs);
            },
        }
    }
}

/// One GitLab entry of the document: an object with a string `host` and a
/// string `token`.
pub open spec fn host_entry_of(v: Value) -> Option<HostEntry> {
    match (as_str(field(v, "host"@)), as_str(field(v, "token"@))) {
        (Some(h), Some(t)) => Some((h@, t@)),
        _ => None,
    }
}

/// The entries of a GitLab array, when every element is one.
pub open spec fn host_entries_of(vs: Seq<Value>) -> Option<Seq<HostEntry>> {
    if forall|i: int| 0 <= i < vs.len() ==> (#[trigger] host_entry_of(vs[i])) is Some {
        Some(Seq::new(vs.len(), |i: int| host_entry_of(vs[i])->0))
    } else {
        None
    }
}

/// The `gitlab_self_hosted` member in the current shape: missing or null, or
/// an array of entries.
pub open spec fn gitlab_part(m: Option<Value>) -> Option<Option<Seq<HostEntry>>> {
    match m {
        None => Some(None),
        Some(Value::Null) => Some(None),
        Some(Value::Array(items)) => match host_entries_of(items@) {
            Some(es) => Some(Some(es)),
            None => None,
        },
        _ => None,
    }
}

/// The `github` member: missing or null, or an object whose three members
/// are each missing, null or a string.
pub open spec fn github_part(m: Option<Value>) -> Option<Option<GitHubView>> {
    match m {
        None => Some(None),
        Some(Value::Null) => Some(None),
        Some(o) => {
            let a = as_opt_str(field(o, "access_token"@));
            let u = as_opt_str(field(o, "username"@));
            let t = as_opt_str(field(o, "token"@));
            if o is Object && a is Some && u is Some && t is Some {
                Some(
                    Some(
                        GitHubView {
                            access_token: opt_view(a->0),
                            username: opt_view(u->0),
                            token: opt_view(t->0),
                        },
                    ),
                )
            } else {
                None
            }
        },
    }
}

/// The profile a document holds in the current shape.
pub open spec fn current_profile_of(v: Value) -> Option<ProfileView> {
    let g = gitlab_part(field(v, "gitlab_self_hosted"@));
    let h = github_part(field(v, "github"@));
    if v is Object && g is Some && h is Some {
        Some(ProfileView { gitlab: g->0, github: h->0 })
    } else {
        None
    }
}

/// The profile a document holds in the legacy shape, where
/// `gitlab_self_hosted` is one entry rather than an array of them.
pub open spec fn legacy_profile_of(v: Value) -> Option<ProfileView> {
    match field(v, "gitlab_self_hosted"@) {
        Some(o) => {
            let e = host_entry_of(o);
            let h = github_part(field(v, "github"@));
            if v is Object && !(o is Array) && e is Some && h is Some {
                Some(ProfileView { gitlab: Some(seq![e->0]), github: h->0 })
            } else {
                None
            }
        },
        None => None,
    }
}

/// The profile a document holds: the current shape, else the legacy one.
pub open spec fn profile_of(v: Value) -> Option<ProfileView> {
    match current_profile_of(v) {
        Some(p) => Some(p),
        None => legacy_profile_of(v),
    }
}

/// An optional string written as a member: left out when absent.
pub open spec fn encodes_opt(m: Option<Value>, s: Option<Seq<char>>) -> bool {
    match s {
        None => m is None,
        Some(s) => m matches Some(Value::Str(x)) && x@ == s,
    }
}

/// The number of members of an object.
pub open spec fn member_count(v: Value) -> int {
    match v {
        Value::Object(fs) => fs@.len() as int,
        _ => -1,
    }
}

/// The number of parts of `s` that are present.
pub open spec fn present(s: Option<Seq<char>>) -> int {
    if s is Some {
        1
    } else {
        0
    }
}

/// `x` is the document form of entry `e`.
pub open spec fn encodes_entry(x: Value, e: HostEntry) -> bool {
    &&& x is Object
    &&& member_count(x) == 2
    &&& encodes_opt(field(x, "host"@), Some(e.0))
    &&& encodes_opt(field(x, "token"@), Some(e.1))
}

/// `v` is the document form of profile `p`: absent parts left out, the GitLab
/// entries as an array of objects, the GitHub credentials as one object, and
/// no other members.
pub open spec fn encodes(v: Value, p: ProfileView) -> bool {
    &&& v is Object
    &&& member_count(v) == (if p.gitlab is Some { 1int } else { 0 }) + (if p.github is Some { 1int } else { 0 })
    &&& match p.gitlab {
        None => field(v, "gitlab_self_hosted"@) is None,
        Some(es) => match field(v, "gitlab_self_hosted"@) {
            Some(Value::Array(items)) => items@.len() == es.len() && forall|i: int|
                0 <= i < es.len() ==> encodes_entry(#[trigger] items@[i], es[i]),
            _ => false,
        },
    }
    &&& match p.github {
        None => field(v, "github"@) is None,
        Some(g) => match field(v, "github"@) {
            Some(o) => {
                &&& o is Object
                &&& member_count(o) == present(g.access_token) + present(g.username) + present(g.token)
                &&& encodes_opt(field(o, "access_token"@), g.access_token)
                &&& encodes_opt(field(o, "username"@), g.username)
                &&& encodes_opt(field(o, "token"@), g.token)
            },
            None => false,
        },
    }
}

/// Encoding a profile and decoding the document gives the same profile back:
/// as many GitLab entries, with the same hosts and tokens in the same order,
/// and the same GitHub credentials.
pub proof fn law_profile_round_trip(p: ProfileView, v: Value)
    requires
        encodes(v, p),
    ensures
        profile_of(v) == Some(p),
{
    match p.gitlab {
        Some(es) => {
            let items = field(v, "gitlab_self_hosted"@)->Some_0->Array_0;
            assert forall|i: int| 0 <= i < items@.len() implies (#[trigger] host_entry_of(items@[i])) is Some
                && host_entry_of(items@[i]) == Some(es[i]) by {
                assert(encodes_entry(items@[i], es[i]));
            }
            assert(host_entries_of(items@)->0 =~= es);
        },
        None => {},
    }
    match p.github {
        Some(g) => {
            assert(github_part(field(v, "github"@)) == Some(Some(g)));
        },
        None => {},
    }
}

/// A legacy document, whose `gitlab_self_hosted` is a single entry object,
/// holds the same profile as the document that has that object as the only
/// element of an array and is otherwise the same.
pub proof fn law_legacy_profile(v: Value, w: Value)
    requires
        v is Object,
        w is Object,
        field(v, "gitlab_self_hosted"@) matches Some(o) && o is Object,
        field(w, "gitlab_self_hosted"@) matches Some(Value::Array(items)) && items@ == seq![
            field(v, "gitlab_self_hosted"@)->0,
        ],
        field(w, "github"@) == field(v, "github"@),
    ensures
        profile_of(v) == profile_of(w),
{
    let o = field(v, "gitlab_self_hosted"@)->0;
    let items = field(w, "gitlab_self_hosted"@)->Some_0->Array_0;
    assert(items@[0] == o);
    if host_entry_of(o) is Some {
        assert(host_entries_of(items@)->0 =~= seq![host_entry_of(o)->0]);
    } else {
        assert(host_entry_of(items@[0]) is None);
        assert(host_entries_of(items@) is None);
    }
}

proof fn lemma_key_names()
    ensures
        "gitlab_self_hosted"@ != "github"@,
        "host"@ != "token"@,
        "access_token"@ != "username"@,
        "access_token"@ != "token"@,
        "username"@ != "token"@,
{
    reveal_strlit("gitlab_self_hosted");
    reveal_strlit("github");
    reveal_strlit("host");
    reveal_strlit("token");
    reveal_strlit("access_token");
    reveal_strlit("username");
    assert("gitlab_self_hosted"@.len() != "github"@.len());
    assert("host"@.len() != "token"@.len());
    assert("access_token"@.len() != "username"@.len());
    assert("access_token"@.len() != "token"@.len());
    assert("username"@.len() != "token"@.len());
}

fn entry_value(c: &GitLabSelfHostedConfig) -> (r: Value)
    ensures
        encodes_entry(r, entry_view(*c)),
{
    proof {
        lemma_key_names();
    }
    let mut fs: Vec<(String, Value)> = Vec::new();
    let h = (String::from_str("host"), Value::Str(c.host.clone()));
    let t = (String::from_str("token"), Value::Str(c.token.clone()));
    proof {
        lemma_member_push(fs@, h, "host"@);
        lemma_member_push(fs@, h, "token"@);
        lemma_member_push(fs@.push(h), t, "host"@);
        lemma_member_push(fs@.push(h), t, "token"@);
    }
    fs.push(h);
    fs.push(t);
    Value::Object(fs)
}

fn push_opt(fs: &mut Vec<(String, Value)>, key: &str, s: &Option<String>)
    ensures
        forall|k: Seq<char>| k != key@ ==> member(final(fs)@, k) == member(old(fs)@, k),
        member(old(fs)@, key@) is None ==> encodes_opt(member(final(fs)@, key@), opt_view(*s)),
        final(fs)@.len() == old(fs)@.len() + present(opt_view(*s)),
{
    match s {
        Some(x) => {
            let e = (String::from_str(key), Value::Str(x.clone()));
            proof {
                assert forall|k: Seq<char>| true implies member(old(fs)@.push(e), k) == match member(
                    old(fs)@,
                    k,
                ) {
                    Some(x) => Some(x),
                    None => if e.0@ == k {
                        Some(e.1)
                    } else {
                        None
                    },
                } by {
                    lemma_member_push(old(fs)@, e, k);
                }
            }
            fs.push(e);
        },
        None => {},
    }
}

fn github_value(g: &GitHubConfig) -> (r: Value)
    ensures
        r is Object,
        member_count(r) == present(g@.access_token) + present(g@.username) + present(g@.token),
        encodes_opt(field(r, "access_token"@), g@.access_token),
        encodes_opt(field(r, "username"@), g@.username),
        encodes_opt(field(r, "token"@), g@.token),
{
    proof {
        lemma_key_names();
    }
    let mut fs: Vec<(String, Value)> = Vec::new();
    push_opt(&mut fs, "access_token", &g.access_token);
    push_opt(&mut fs, "username", &g.username);
    push_opt(&mut fs, "token", &g.token);
    Value::Object(fs)
}

/// The document form of a profile, as `encodes` describes it.
pub fn encode_profile(profile: &Profile) -> (r: Value)
    ensures
        encodes(r, profile@),
{
    proof {
        lemma_key_names();
    }
    let mut fs: Vec<(String, Value)> = Vec::new();
    match &profile.gitlab_self_hosted {
        Some(cs) => {
            let mut items: Vec<Value> = Vec::new();
            let mut i: usize = 0;
            while i < cs.len()
                invariant
                    i <= cs@.len(),
                    items@.len() == i,
                    forall|j: int| 0 <= j < i ==> encodes_entry(#[trigger] items@[j], entry_view(cs@[j])),
                decreases cs.len() - i,
            {
                items.push(entry_value(&cs[i]));
                i = i + 1;
            }
            let ghost es = profile@.gitlab->0;
            assert(es.len() == items@.len());
            assert forall|j: int| 0 <= j < es.len() implies encodes_entry(#[trigger] items@[j], es[j]) by {
                assert(es[j] == entry_view(cs@[j]));
            }
            let e = (String::from_str("gitlab_self_hosted"), Value::Array(items));
            proof {
                lemma_member_push(fs@, e, "gitlab_self_hosted"@);
                lemma_member_push(fs@, e, "github"@);
            }
            fs.push(e);
        },
        None => {},
    }
    match &profile.github {
        Some(g) => {
            let e = (String::from_str("github"), github_value(g));
            proof {
                lemma_member_push(fs@, e, "gitlab_self_hosted"@);
                lemma_member_push(fs@, e, "github"@);
            }
            fs.push(e);
        },
        None => {},
    }
    Value::Object(fs)
}

fn decode_entries(items: &Vec<Value>) -> (r: Option<Vec<GitLabSelfHostedConfig>>)
    ensures
        match r {
            Some(cs) => host_entries_of(items@) == Some(
                cs@.map_values(|c: GitLabSelfHostedConfig| entry_view(c)),
            ),
            None => host_entries_of(items@) is None,
        },
{
    let mut cs: Vec<GitLabSelfHostedConfig> = Vec::new();
    let mut i: usize = 0;
    while i < items.len()
        invariant
            i <= items@.len(),
            cs@.len() == i,
            forall|j: int| 0 <= j < i ==> host_entry_of(items@[j]) == Some(entry_view(#[trigger] cs@[j])),
        decreases items.len() - i,
    {
        let host = items[i].get_str("host");
        let token = items[i].get_str("token");
        match (host, token) {
            (Some(host), Some(token)) => cs.push(GitLabSelfHostedConfig { host, token }),
            _ => {
                assert(host_entry_of(items@[i as int]) is None);
                return None;
            },
        }
        i = i + 1;
    }
    assert forall|j: int| 0 <= j < items@.len() implies (#[trigger] host_entry_of(items@[j])) is Some by {
        assert(host_entry_of(items@[j]) == Some(entry_view(cs@[j])));
    }
    assert(host_entries_of(items@)->0 =~= cs@.map_values(|c: GitLabSelfHostedConfig| entry_view(c)));
    Some(cs)
}

fn decode_gitlab_part(m: Option<&Value>) -> (r: Option<Option<Vec<GitLabSelfHostedConfig>>>)
    ensures
        match r {
            Some(Some(cs)) => gitlab_part(match m { Some(x) => Some(*x), None => None }) == Some(
                Some(cs@.map_values(|c: GitLabSelfHostedConfig| entry_view(c))),
            ),
            Some(None) => gitlab_part(match m { Some(x) => Some(*x), None => None }) == Some(
                None::<Seq<HostEntry>>,
            ),
            None => gitlab_part(match m { Some(x) => Some(*x), None => None }) is None,
        },
{
    match m {
        None => Some(None),
        Some(Value::Null) => Some(None),
        Some(Value::Array(items)) => match decode_entries(items) {
            Some(cs) => Some(Some(cs)),
            None => None,
        },
        _ => None,
    }
}

fn decode_github_part(m: Option<&Value>) -> (r: Option<Option<GitHubConfig>>)
    ensures
        match r {
            Some(Some(g)) => github_part(match m { Some(x) => Some(*x), None => None }) == Some(Some(g@)),
            Some(None) => github_part(match m { Some(x) => Some(*x), None => None }) == Some(
                None::<GitHubView>,
            ),
            None => github_part(match m { Some(x) => Some(*x), None => None }) is None,
        },
{
    match m {
        None => Some(None),
        Some(Value::Null) => Some(None),
        Some(o) => {
            if !o.is_object() {
                return None;
            }
            let access_token = match o.get_opt_str("access_token") {
                Some(x) => x,
                None => return None,
            };
            let username = match o.get_opt_str("username") {
                Some(x) => x,
                None => return None,
            };
            let token = match o.get_opt_str("token") {
                Some(x) => x,
                None => return None,
            };
            Some(Some(GitHubConfig { access_token, username, token }))
        },
    }
}

/// Decodes a profile document in the current shape.
pub fn decode_current(v: &Value) -> (r: Option<Profile>)
    ensures
        match r {
            Some(p) => current_profile_of(*v) == Some(p@),
            None => current_profile_of(*v) is None,
        },
{
    if !v.is_object() {
        return None;
    }
    let gitlab_self_hosted = match decode_gitlab_part(v.get("gitlab_self_hosted")) {
        Some(x) => x,
        None => return None,
    };
    let github = match decode_github_part(v.get("github")) {
        Some(x) => x,
        None => return None,
    };
    Some(Profile { gitlab_self_hosted, github })
}

/// Rewrites a legacy document, whose `gitlab_self_hosted` is one entry, into
/// the current shape, where it is an array of entries. Any other document is
/// returned as it was.
pub fn migrate_profile(value: Value) -> (r: Value)
    ensures
        (value is Object) <==> (r is Object),
        !(value is Object) ==> r == value,
        field(value, "gitlab_self_hosted"@) is None ==> r == value,
        field(value, "gitlab_self_hosted"@) matches Some(Value::Array(_)) ==> r == value,
        member_count(r) == member_count(value),
        forall|k: Seq<char>| k != "gitlab_self_hosted"@ ==> #[trigger] field(r, k) == field(value, k),
        match field(value, "gitlab_self_hosted"@) {
            Some(o) => if o is Array {
                field(r, "gitlab_self_hosted"@) == Some(o)
            } else {
                field(r, "gitlab_self_hosted"@) matches Some(Value::Array(items)) && items@ == seq![o]
            },
            None => field(r, "gitlab_self_hosted"@) is None,
        },
{
    let ghost v0 = value;
    match value {
        Value::Object(fields) => {
            let ghost key = "gitlab_self_hosted"@;
            let ghost fs = fields@;
            let mut i: usize = 0;
            let mut found = false;
            while i < fields.len() && !found
                invariant
                    fields@ == fs,
                    v0 == Value::Object(fields),
                    key == "gitlab_self_hosted"@,
                    i <= fs.len(),
                    found ==> i < fs.len() && fs[i as int].0@ == key,
                    forall|j: int| 0 <= j < i ==> (#[trigger] fs[j]).0@ != key,
                decreases fs.len() - i + (if found { 0int } else { 1int }),
            {
                if str_eq(fields[i].0.as_str(), "gitlab_self_hosted") {
                    found = true;
                } else {
                    i = i + 1;
                }
            }
            if !found {
                proof {
                    lemma_member_absent(fs, key);
                }
                return Value::Object(fields);
            }
            proof {
                lemma_member_update(fs, i as int, fs[i as int], key);
            }
            let is_array = match &fields[i].1 {
                Value::Array(_) => true,
                _ => false,
            };
            if is_array {
                return Value::Object(fields);
            }
            let mut fields = fields;
            let (k, o) = fields.remove(i);
            let wrapped = vec![o];
            let e = (k, Value::Array(wrapped));
            fields.insert(i, e);
            assert(fields@ =~= fs.update(i as int, e));
            assert forall|k2: Seq<char>| k2 != key implies #[trigger] member(fields@, k2) == member(fs, k2) by {
                lemma_member_update(fs, i as int, e, k2);
            }
            proof {
                lemma_member_update(fs, i as int, e, key);
            }
            Value::Object(fields)
        },
        other => other,
    }
}

/// Decodes a profile document: the current shape, else the legacy shape
/// after migration; a document in neither shape is corrupt.
pub fn decode_profile(value: Value) -> (r: Result<Profile, Error>)
    ensures
        match profile_of(value) {
            Some(p) => r matches Ok(q) && q@ == p,
            None => r matches Err(Error::ProfileCorrupt),
        },
{
    match decode_current(&value) {
        Some(p) => Ok(p),
        None => {
            let ghost v = value;
            let migrated = migrate_profile(value);
            proof {
                assert(field(migrated, "github"@) == field(v, "github"@)) by {
                    lemma_key_names();
                }
                match field(v, "gitlab_self_hosted"@) {
                    Some(o) => {
                        if !(o is Array) {
                            let items = field(migrated, "gitlab_self_hosted"@)->Some_0->Array_0;
                            assert(items@[0] == o);
                            if host_entry_of(o) is Some {
                                assert(host_entries_of(items@)->0 =~= seq![host_entry_of(o)->0]);
                            } else {
                                assert(host_entry_of(items@[0]) is None);
                            }
                        }
                    },
                    None => {},
                }
            }
            match decode_current(&migrated) {
                Some(p) => Ok(p),
                None => Err(Error::ProfileCorrupt),
            }
        },
    }
}

/// How a GitHub client authenticates.
pub enum GitHubAuth {
    /// `Authorization: token ...`
    OAuth(String),
    /// `Authorization: Basic ...` from a username and a token.
    Basic { username: String, token: String },
}

/// What a credential holds.
pub enum AuthView {
    OAuth(Seq<char>),
    Basic(Seq<char>, Seq<char>),
}

impl View for GitHubAuth {
    type V = AuthView;

    open spec fn view(&self) -> AuthView {
        match self {
            GitHubAuth::OAuth(t) => AuthView::OAuth(t@),
            GitHubAuth::Basic { username, token } => AuthView::Basic(username@, token@),
        }
    }
}

/// The credential GitHub settings give: the OAuth token when there is one,
/// else the username and token pair; `None` when neither is complete.
pub open spec fn auth_of(g: GitHubView) -> Option<AuthView> {
    match (g.access_token, g.username, g.token) {
        (Some(a), _, _) => Some(AuthView::OAuth(a)),
        (None, Some(u), Some(t)) => Some(AuthView::Basic(u, t)),
        _ => None,
    }
}

/// The GitHub credential of a profile, or why there is none.
pub open spec fn profile_auth(p: ProfileView) -> Result<AuthView, Error> {
    match p.github {
        None => Err(Error::MissingGitHubProfile),
        Some(g) => match auth_of(g) {
            Some(a) => Ok(a),
            None => Err(Error::InvalidGitHubProfile),
        },
    }
}

impl GitHubConfig {
    /// The credential these settings give, as `auth_of` states.
    pub fn credential(&self) -> (r: Result<GitHubAuth, Error>)
        ensures
            match r {
                Ok(a) => auth_of(self@) == Some(a@),
                Err(e) => auth_of(self@) is None && e is InvalidGitHubProfile,
            },
    {
        match &self.access_token {
            Some(a) => Ok(GitHubAuth::OAuth(a.clone())),
            None => match (&self.username, &self.token) {
                (Some(u), Some(t)) => Ok(GitHubAuth::Basic { username: u.clone(), token: t.clone() }),
                _ => Err(Error::InvalidGitHubProfile),
            },
        }
    }

    /// Stores these settings as the profile's GitHub credentials.
    pub fn fill_profile(&self, profile: &mut Profile)
        ensures
            final(profile)@.github == Some(self@),
            final(profile)@.gitlab == old(profile)@.gitlab,
            old(profile).wf() ==> final(profile).wf(),
    {
        profile.github = Some(
            GitHubConfig {
                access_token: self.access_token.clone(),
                username: self.username.clone(),
                token: self.token.clone(),
            },
        );
    }
}

/// The GitHub credential of a profile, as `profile_auth` states.
pub fn github_credential(profile: &Profile) -> (r: Result<GitHubAuth, Error>)
    ensures
        match r {
            Ok(a) => profile_auth(profile@) == Ok::<AuthView, Error>(a@),
            Err(e) => profile_auth(profile@) == Err::<AuthView, Error>(e),
        },
{
    match &profile.github {
        Some(g) => g.credential(),
        None => Err(Error::MissingGitHubProfile),
    }
}

} // verus!
