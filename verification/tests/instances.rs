use mccl_node::instance::{Instance, InstanceConfig};
use mccl_node::instances::{collect_instances, instances_folder, listed_config_path, scaffold_plan, FoundInstance};
use mccl_node::instances_reader::{
    collect_read_instances, config_file_path, config_value, reader_instance_path, ConfigError,
};
use mccl_node::launcher::{
    console_launch_plan, console_result, instance_launch_plan, join_strings, launch_outcome,
    shown_command, ConsoleFailure, LaunchOutcome, ProcessEnd,
};

fn config(name: &str) -> InstanceConfig {
    InstanceConfig {
        name: name.to_string(),
        username: "u".to_string(),
        token: "t".to_string(),
        service: "s".to_string(),
        discord_webhook: None,
        java_runtime: "/usr/bin/java".to_string(),
        args: vec!["-Xmx2G".to_string(), "-jar".to_string(), "server.jar".to_string()],
        untracked: vec!["world".to_string()],
    }
}

#[test]
fn paths() {
    assert_eq!(instances_folder(), "instances");
    assert_eq!(listed_config_path("instances\\a"), "instances\\a\\config.mccl.json");
    assert_eq!(reader_instance_path("abc"), "instances/abc");
    assert_eq!(config_file_path("instances/abc"), "instances/abc/config.mccl.json");
}

#[test]
fn collect_keeps_read_configs_in_order() {
    let found = vec![
        FoundInstance { path: "a".to_string(), config: Some(config("A")) },
        FoundInstance { path: "b".to_string(), config: None },
        FoundInstance { path: "c".to_string(), config: Some(config("C")) },
    ];
    let kept = collect_instances(found);
    let names: Vec<(String, String)> =
        kept.iter().map(|i: &Instance| (i.path.clone(), i.config.name.clone())).collect();
    assert_eq!(names, vec![("a".to_string(), "A".to_string()), ("c".to_string(), "C".to_string())]);
}

#[test]
fn config_documents() {
    assert!(config_value(b"{\"name\": \"x\"}").is_ok());
    assert!(matches!(config_value(b"{not json"), Err(ConfigError::NotJson)));
    let doc = config_value(b" {\"a\": [true, null]} ").ok().unwrap().into_value();
    assert_eq!(doc["a"][0], serde_json::Value::Bool(true));
    let found = vec![
        ("x".to_string(), config_value(b"[1]").ok()),
        ("y".to_string(), None),
    ];
    let kept = collect_read_instances(found);
    assert_eq!(kept.len(), 1);
    assert_eq!(kept[0].path, "x");
    assert_eq!(kept[0].config, serde_json::Value::Array(vec![serde_json::Value::from(1)]));
}

#[test]
fn scaffold() {
    let plan = scaffold_plan("abc", "paper.jar", "My world");
    assert_eq!(plan.folder, "instances/abc");
    assert_eq!(plan.executable_target, "instances/abc/paper.jar");
    assert_eq!(plan.config_file, "instances/abc/config.mccl.json");
    assert_eq!(plan.eula_file, "instances/abc/eula.txt");
    assert_eq!(plan.eula_text, "eula=true");
    assert_eq!(plan.config.name, "My world");
    assert_eq!(plan.config.username, "admin");
    assert_eq!(plan.config.token.len(), 48);
    assert_eq!(plan.config.cmd, vec!["-jar".to_string(), "paper.jar".to_string(), "-nogui".to_string()]);
    assert_eq!(plan.config.executable, "paper.jar");
    assert!(plan.config.service.is_none());
    assert_eq!(plan.config.local_last_run, 0);
}

#[test]
fn launch_plans() {
    let inst = Instance { path: "instances/abc".to_string(), config: config("A") };
    let plan = instance_launch_plan(&inst);
    assert_eq!(plan.program, "/usr/bin/java");
    assert_eq!(plan.working_dir, "instances/abc");
    assert_eq!(plan.args, inst.config.args);
    assert!(plan.kill_on_drop && !plan.capture_output);
    assert_eq!(shown_command(&inst), "/usr/bin/java -Xmx2G -jar server.jar");
    let console = console_launch_plan("instances/abc", &vec!["-jar".to_string(), "s.jar".to_string()]);
    assert_eq!(console.program, "java");
    assert!(console.capture_output);
    assert_eq!(join_strings(&vec![], " "), "");
    assert_eq!(join_strings(&vec!["a".to_string()], ", "), "a");
}

#[test]
fn outcomes() {
    assert_eq!(launch_outcome(ProcessEnd::Exited { success: true, code: Some(0) }), LaunchOutcome::Stopped);
    assert_eq!(launch_outcome(ProcessEnd::Exited { success: false, code: Some(1) }), LaunchOutcome::BadStatus(1));
    assert_eq!(launch_outcome(ProcessEnd::Exited { success: false, code: None }), LaunchOutcome::Signalled);
    assert_eq!(launch_outcome(ProcessEnd::WaitFailed), LaunchOutcome::UnknownExit);
    assert_eq!(launch_outcome(ProcessEnd::SpawnFailed), LaunchOutcome::SpawnFailed);
    assert_eq!(console_result(ProcessEnd::Exited { success: true, code: None }), Ok(()));
    assert_eq!(console_result(ProcessEnd::Exited { success: false, code: Some(2) }), Err(ConsoleFailure::AbnormalStop));
    assert_eq!(console_result(ProcessEnd::OutputFailed), Err(ConsoleFailure::OutputFailed));
}
