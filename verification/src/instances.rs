//! The instances on disk: where their configurations lie, which of them are
//! kept, and the files that make a new instance.

use vstd::prelude::*;
use crate::instance::{Instance, InstanceConfig, InstanceConfigView, InstanceView};
use crate::instances_reader::{config_file_path, config_file_suffix, reader_instance_path, reader_prefix};

verus! {

/// `"instances"`: the folder that holds one folder per instance.
pub open spec fn instances_folder_text() -> Seq<char> {
    seq!['i', 'n', 's', 't', 'a', 'n', 'c', 'e', 's']
}

/// The folder that holds one folder per instance.
pub fn instances_folder() -> (f: &'static str)
    ensures
        f@ == instances_folder_text(),
{
    proof {
        reveal_strlit("instances");
    }
    "instances"
}

/// `"\config.mccl.json"`: appended to an instance's folder when listing.
pub open spec fn listed_config_suffix() -> Seq<char> {
    seq!['\\', 'c', 'o', 'n', 'f', 'i', 'g', '.', 'm', 'c', 'c', 'l', '.', 'j', 's', 'o', 'n']
}

/// The configuration file of a listed instance folder:
/// `"{folder}\config.mccl.json"`.
pub fn listed_config_path(folder: &str) -> (p: String)
    ensures
        p@ == folder@ + listed_config_suffix(),
{
    let mut p = folder.to_owned();
    p.append("\\config.mccl.json");
    proof {
        reveal_strlit("\\config.mccl.json");
    }
    assert("\\config.mccl.json"@ =~= listed_config_suffix());
    p
}

/// A folder found in the instances folder, with its configuration where it
/// could be read.
#[derive(Debug)]
pub struct FoundInstance {
    pub path: String,
    pub config: Option<InstanceConfig>,
}

/// The text of a [`FoundInstance`].
pub struct FoundInstanceView {
    pub path: Seq<char>,
    pub config: Option<InstanceConfigView>,
}

impl View for FoundInstance {
    type V = FoundInstanceView;

    open spec fn view(&self) -> FoundInstanceView {
        FoundInstanceView {
            path: self.path@,
            config: match self.config {
                Some(c) => Some(c@),
                None => None,
            },
        }
    }
}

/// The instances kept from the folders found: those whose configuration was
/// read, in the order found.
pub open spec fn kept_instances(found: Seq<FoundInstanceView>) -> Seq<InstanceView>
    decreases found.len(),
{
    if found.len() == 0 {
        Seq::empty()
    } else {
        let last = found.last();
        let before = kept_instances(found.drop_last());
        match last.config {
            Some(c) => before.push(InstanceView { path: last.path, config: c }),
            None => before,
        }
    }
}

/// How many of the found folders had their configuration read.
pub open spec fn configured_count(found: Seq<FoundInstanceView>) -> nat
    decreases found.len(),
{
    if found.len() == 0 {
        0
    } else {
        configured_count(found.drop_last()) + if found.last().config is Some {
            1nat
        } else {
            0nat
        }
    }
}

/// Fewer folders were read among the first `j` found than among all.
proof fn lemma_configured_count_prefix(found: Seq<FoundInstanceView>, j: int)
    requires
        0 <= j <= found.len(),
    ensures
        configured_count(found.take(j)) <= configured_count(found),
    decreases found.len(),
{
    if j == found.len() {
        assert(found.take(j) =~= found);
    } else {
        assert(found.drop_last().take(j) =~= found.take(j));
        lemma_configured_count_prefix(found.drop_last(), j);
    }
}

/// The kept instances are exactly the found folders whose configuration was
/// read, in the order found: as many as were read, each read folder at the
/// place given by the reads before it, and nothing that was not read.
pub proof fn kept_instances_are_the_reads(found: Seq<FoundInstanceView>)
    ensures
        kept_instances(found).len() == configured_count(found),
        forall|i: int|
            0 <= i < found.len() && (#[trigger] found[i]).config is Some ==> kept_instances(
                found,
            )[configured_count(found.take(i)) as int] == (InstanceView {
                path: found[i].path,
                config: found[i].config->0,
            }),
        forall|k: int|
            0 <= k < kept_instances(found).len() ==> exists|i: int|
                0 <= i < found.len() && found[i].config == Some(
                    (#[trigger] kept_instances(found)[k]).config,
                ) && found[i].path == kept_instances(found)[k].path,
    decreases found.len(),
{
    if found.len() > 0 {
        let before = found.drop_last();
        let n = found.len() - 1;
        kept_instances_are_the_reads(before);
        assert(found.take(n) =~= before);
        assert forall|i: int|
            0 <= i < found.len() && (#[trigger] found[i]).config is Some implies kept_instances(
                found,
            )[configured_count(found.take(i)) as int] == (InstanceView {
                path: found[i].path,
                config: found[i].config->0,
            }) by {
            if i < n {
                assert(before.take(i) =~= found.take(i));
                assert(before[i] == found[i]);
                assert(before.take(i + 1).drop_last() =~= before.take(i));
                assert(before.take(i + 1).last() == before[i]);
                lemma_configured_count_prefix(before, i + 1);
            }
        }
        assert forall|k: int| 0 <= k < kept_instances(found).len() implies exists|i: int|
            0 <= i < found.len() && found[i].config == Some(
                (#[trigger] kept_instances(found)[k]).config,
            ) && found[i].path == kept_instances(found)[k].path by {
            if k < kept_instances(before).len() {
                let i = choose|i: int|
                    0 <= i < before.len() && before[i].config == Some(
                        (#[trigger] kept_instances(before)[k]).config,
                    ) && before[i].path == kept_instances(before)[k].path;
                assert(found[i] == before[i]);
            } else {
                assert(found[n] == found.last());
            }
        }
    }
}

/// The texts of a list of found folders.
pub open spec fn found_views(found: Seq<FoundInstance>) -> Seq<FoundInstanceView> {
    found.map_values(|f: FoundInstance| f@)
}

/// The texts of a list of instances.
pub open spec fn instance_views(list: Seq<Instance>) -> Seq<InstanceView> {
    list.map_values(|i: Instance| i@)
}

/// Keeps the instances whose configuration was read, in order.
pub fn collect_instances(found: Vec<FoundInstance>) -> (kept: Vec<Instance>)
    ensures
        instance_views(kept@) == kept_instances(found_views(found@)),
        kept@.len() == configured_count(found_views(found@)),
{
    let ghost all = found@;
    let count = found.len();
    let mut rest = found;
    let mut kept: Vec<Instance> = Vec::new();
    let mut i: usize = 0;
    while rest.len() > 0
        invariant
            i + rest@.len() == all.len(),
            all.len() == count,
            rest@ == all.skip(i as int),
            instance_views(kept@) == kept_instances(found_views(all.take(i as int))),
        decreases rest@.len(),
    {
        let entry = rest.remove(0);
        proof {
            assert(entry == all[i as int]);
            assert(all.take(i + 1).drop_last() =~= all.take(i as int));
            assert(found_views(all.take(i + 1)).drop_last() =~= found_views(all.take(i as int)));
            assert(found_views(all.take(i + 1)).last() == entry@);
            assert(all.skip(i + 1) =~= all.skip(i as int).drop_first());
        }
        match entry.config {
            Some(config) => {
                let ghost before = kept@;
                kept.push(Instance { path: entry.path, config });
                assert(instance_views(kept@) =~= instance_views(before).push(kept@.last()@));
            },
            None => {},
        }
        i = i + 1;
    }
    assert(all.take(all.len() as int) =~= all);
    proof {
        kept_instances_are_the_reads(found_views(all));
    }
    kept
}

/// The configuration written into a new instance's folder.
#[derive(Debug)]
pub struct ScaffoldConfig {
    pub name: String,
    pub username: String,
    pub token: String,
    pub service: Option<String>,
    pub discord_webhook: Option<String>,
    pub local_last_run: u64,
    pub executable: String,
    pub cmd: Vec<String>,
    pub excluded_lock_structure: Vec<String>,
}

/// The files that make a new instance: its folder, where the server's JAR is
/// copied, the configuration file and its content, and the accepted EULA.
#[derive(Debug)]
pub struct ScaffoldPlan {
    pub folder: String,
    pub executable_target: String,
    pub config_file: String,
    pub config: ScaffoldConfig,
    pub eula_file: String,
    pub eula_text: String,
}

/// `"/eula.txt"`
pub open spec fn eula_suffix() -> Seq<char> {
    seq!['/', 'e', 'u', 'l', 'a', '.', 't', 'x', 't']
}

/// `"eula=true"`
pub open spec fn eula_accepted() -> Seq<char> {
    seq!['e', 'u', 'l', 'a', '=', 't', 'r', 'u', 'e']
}

/// `"admin"`
pub open spec fn admin_name() -> Seq<char> {
    seq!['a', 'd', 'm', 'i', 'n']
}

/// `["-jar", executable, "-nogui"]`
pub open spec fn server_command(executable: Seq<char>) -> Seq<Seq<char>> {
    seq![seq!['-', 'j', 'a', 'r'], executable, seq!['-', 'n', 'o', 'g', 'u', 'i']]
}

/// The files of a new instance in `instances/{instance_folder}` running the
/// JAR `executable_file`: the JAR's copy beside the configuration, the
/// configuration (user `admin`, a fresh 48-character token, no service nor
/// webhook, never run, `-jar {executable_file} -nogui`), and `eula=true`.
pub fn scaffold_plan(instance_folder: &str, executable_file: &str, instance_name: &str) -> (plan:
    ScaffoldPlan)
    ensures
        plan.folder@ == reader_prefix() + instance_folder@,
        plan.executable_target@ == plan.folder@ + seq!['/'] + executable_file@,
        plan.config_file@ == plan.folder@ + config_file_suffix(),
        plan.eula_file@ == plan.folder@ + eula_suffix(),
        plan.eula_text@ == eula_accepted(),
        plan.config.name@ == instance_name@,
        plan.config.username@ == admin_name(),
        plan.config.token@.len() == 48,
        forall|i: int|
            0 <= i < 48 ==> crate::ids::is_url_safe(#[trigger] plan.config.token@[i]),
        plan.config.service is None,
        plan.config.discord_webhook is None,
        plan.config.local_last_run == 0,
        plan.config.executable@ == executable_file@,
        plan.config.cmd.deep_view() == server_command(executable_file@),
        plan.config.excluded_lock_structure@.len() == 0,
{
    let folder = reader_instance_path(instance_folder);
    let mut executable_target = folder.clone();
    executable_target.append("/");
    executable_target.append(executable_file);
    let config_file = config_file_path(folder.as_str());
    let mut eula_file = folder.clone();
    eula_file.append("/eula.txt");
    let mut cmd: Vec<String> = Vec::new();
    cmd.push(String::from_str("-jar"));
    cmd.push(executable_file.to_owned());
    cmd.push(String::from_str("-nogui"));
    proof {
        reveal_strlit("/");
        reveal_strlit("/eula.txt");
        reveal_strlit("-jar");
        reveal_strlit("-nogui");
        reveal_strlit("admin");
        reveal_strlit("eula=true");
    }
    assert(cmd.deep_view()[0] =~= server_command(executable_file@)[0]);
    assert(cmd.deep_view()[2] =~= server_command(executable_file@)[2]);
    assert(cmd.deep_view() =~= server_command(executable_file@));
    let config = ScaffoldConfig {
        name: instance_name.to_owned(),
        username: String::from_str("admin"),
        token: crate::ids::new_token(),
        service: None,
        discord_webhook: None,
        local_last_run: 0,
        executable: executable_file.to_owned(),
        cmd,
        excluded_lock_structure: Vec::new(),
    };
    let plan = ScaffoldPlan {
        folder,
        executable_target,
        config_file,
        config,
        eula_file,
        eula_text: String::from_str("eula=true"),
    };
    assert(plan.eula_file@ =~= plan.folder@ + eula_suffix());
    assert(plan.config.username@ =~= admin_name());
    assert(plan.eula_text@ =~= eula_accepted());
    plan
}

} // verus!
