//! An instance: a server folder and the configuration stored in it.

use vstd::prelude::*;

verus! {

/// The configuration of an instance, as `config.mccl.json` holds it.
#[derive(Debug)]
pub struct InstanceConfig {
    pub name: String,
    pub username: String,
    pub token: String,
    pub service: String,
    pub discord_webhook: Option<String>,
    pub java_runtime: String,
    pub args: Vec<String>,
    pub untracked: Vec<String>,
}

/// The text of an [`InstanceConfig`].
pub struct InstanceConfigView {
    pub name: Seq<char>,
    pub username: Seq<char>,
    pub token: Seq<char>,
    pub service: Seq<char>,
    pub discord_webhook: Option<Seq<char>>,
    pub java_runtime: Seq<char>,
    pub args: Seq<Seq<char>>,
    pub untracked: Seq<Seq<char>>,
}

/// The text of an optional string.
pub open spec fn opt_text(s: Option<String>) -> Option<Seq<char>> {
    match s {
        Some(t) => Some(t@),
        None => None,
    }
}

impl View for InstanceConfig {
    type V = InstanceConfigView;

    open spec fn view(&self) -> InstanceConfigView {
        InstanceConfigView {
            name: self.name@,
            username: self.username@,
            token: self.token@,
            service: self.service@,
            discord_webhook: opt_text(self.discord_webhook),
            java_runtime: self.java_runtime@,
            args: self.args.deep_view(),
            untracked: self.untracked.deep_view(),
        }
    }
}

/// Copies a list of strings.
pub fn copy_strings(v: &Vec<String>) -> (r: Vec<String>)
    ensures
        r.deep_view() == v.deep_view(),
{
    let mut r: Vec<String> = Vec::new();
    let mut i: usize = 0;
    while i < v.len()
        invariant
            i <= v.len(),
            r.deep_view() == v.deep_view().take(i as int),
        decreases v.len() - i,
    {
        r.push(v[i].clone());
        proof {
            assert(v.deep_view().take(i + 1) =~= v.deep_view().take(i as int).push(v[i as int]@));
        }
        i = i + 1;
    }
    assert(v.deep_view().take(v.len() as int) =~= v.deep_view());
    r
}

/// Copies an optional string.
pub fn copy_opt_string(s: &Option<String>) -> (r: Option<String>)
    ensures
        opt_text(r) == opt_text(*s),
{
    match s {
        Some(t) => Some(t.clone()),
        None => None,
    }
}

impl InstanceConfig {
    /// A copy of the configuration.
    pub fn duplicate(&self) -> (r: InstanceConfig)
        ensures
            r@ == self@,
    {
        InstanceConfig {
            name: self.name.clone(),
            username: self.username.clone(),
            token: self.token.clone(),
            service: self.service.clone(),
            discord_webhook: copy_opt_string(&self.discord_webhook),
            java_runtime: self.java_runtime.clone(),
            args: copy_strings(&self.args),
            untracked: copy_strings(&self.untracked),
        }
    }
}

/// An instance found on disk: the folder's path and its configuration.
#[derive(Debug)]
pub struct Instance {
    pub path: String,
    pub config: InstanceConfig,
}

/// The text of an [`Instance`].
pub struct InstanceView {
    pub path: Seq<char>,
    pub config: InstanceConfigView,
}

impl View for Instance {
    type V = InstanceView;

    open spec fn view(&self) -> InstanceView {
        InstanceView { path: self.path@, config: self.config@ }
    }
}

impl Instance {
    /// A copy of the instance.
    pub fn duplicate(&self) -> (r: Instance)
        ensures
            r@ == self@,
    {
        Instance { path: self.path.clone(), config: self.config.duplicate() }
    }
}

} // verus!
