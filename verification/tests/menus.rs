use mccl_node::instance::{Instance, InstanceConfig};
use mccl_node::menus::{
    entry_label, home_choice, home_options, instance_menu_options, instance_page_action,
    instance_screen_action, welcome_options, welcome_pick, welcome_response, HomeChoice,
    InstanceAction, WelcomePick,
};

fn config(name: &str) -> InstanceConfig {
    InstanceConfig {
        name: name.to_string(),
        username: "steve".to_string(),
        token: "secret".to_string(),
        service: "https://mccl.example".to_string(),
        discord_webhook: None,
        java_runtime: "java".to_string(),
        args: vec!["-jar".to_string(), "server.jar".to_string()],
        untracked: vec![],
    }
}

fn instance(name: &str, path: &str) -> Instance {
    Instance { path: path.to_string(), config: config(name) }
}

#[test]
fn entry_label_numbers_from_one() {
    assert_eq!(entry_label(0, "Survival", "instances/abc"), "1. Survival (instances/abc)");
    assert_eq!(entry_label(11, "x", "y"), "12. x (y)");
}

#[test]
fn home_options_list_instances_then_create() {
    let list = vec![instance("A", "p/a"), instance("B", "p/b")];
    let options = home_options(&list);
    assert_eq!(options.len(), 3);
    let plain = ["1. A (p/a)", "2. B (p/b)"];
    for i in 0..2 {
        let bold = format!("\u{1b}[1m{}\u{1b}[0m", plain[i]);
        assert!(options[i] == plain[i] || options[i] == bold);
    }
    assert_eq!(options[2], "*  Create a new instance");
}

#[test]
fn home_choice_reads_bold_label() {
    assert_eq!(home_choice("\u{1b}[1m1. A (p/a)\u{1b}[0m", 2), Some(HomeChoice::Open(0)));
    assert_eq!(home_choice("\u{1b}[1m2. B. x (p/b)\u{1b}[0m", 2), Some(HomeChoice::Open(1)));
    assert_eq!(home_choice("\u{1b}[1m12. L (p)\u{1b}[0m", 12), Some(HomeChoice::Open(11)));
}

#[test]
fn home_choice_create_option() {
    assert_eq!(home_choice("*  Create a new instance", 0), Some(HomeChoice::NewInstance));
}

#[test]
fn home_choice_refuses_unreadable_labels() {
    // Without the bold sequence the number is cut away.
    assert_eq!(home_choice("1. A (p/a)", 1), None);
    // Past the list, or zero.
    assert_eq!(home_choice("\u{1b}[1m3. C (p)\u{1b}[0m", 2), None);
    assert_eq!(home_choice("\u{1b}[1m0. C (p)\u{1b}[0m", 2), None);
    // Cut inside a character.
    assert_eq!(home_choice("a\u{e9}\u{e9}1. x", 5), None);
    // Five plain digits: the first four are skipped, the rest is read.
    assert_eq!(home_choice("12342. x", 5), Some(HomeChoice::Open(1)));
}

#[test]
fn welcome_options_start_with_create() {
    let list = vec![instance("A", "p/a")];
    let options = welcome_options(&list);
    assert_eq!(options, vec!["* Create a new instance".to_string(), "1. A (p/a)".to_string()]);
}

#[test]
fn welcome_pick_reads_number() {
    assert_eq!(welcome_pick("1. A (p/a)", 1), Some(WelcomePick::Instance(0)));
    assert_eq!(welcome_pick("* Create a new instance", 1), Some(WelcomePick::NoInstance));
    assert_eq!(welcome_pick("2. B (p/b)", 1), None);
    assert_eq!(welcome_pick("0. B (p/b)", 1), None);
    assert_eq!(welcome_pick("+1. A", 1), Some(WelcomePick::Instance(0)));
}

#[test]
fn welcome_response_copies_the_instance() {
    let list = vec![instance("A", "p/a"), instance("B", "p/b")];
    let r = welcome_response("2. B (p/b)".to_string(), &list).unwrap();
    assert_eq!(r.text, "2. B (p/b)");
    let chosen = r.instance.unwrap();
    assert_eq!(chosen.path, "p/b");
    assert_eq!(chosen.config.name, "B");
    assert_eq!(chosen.config.args, vec!["-jar".to_string(), "server.jar".to_string()]);
    let none = welcome_response("* Create a new instance".to_string(), &list).unwrap();
    assert!(none.instance.is_none());
    assert!(welcome_response("3. C".to_string(), &list).is_none());
}

#[test]
fn instance_menu_actions() {
    let options = instance_menu_options();
    assert_eq!(options.len(), 5);
    assert_eq!(instance_page_action(&options[0]), InstanceAction::Host);
    assert_eq!(instance_page_action(&options[1]), InstanceAction::Connect);
    assert_eq!(instance_page_action(&options[2]), InstanceAction::HostLocally);
    assert_eq!(instance_page_action(&options[3]), InstanceAction::Stay);
    assert_eq!(instance_page_action(&options[4]), InstanceAction::Exit);
    assert_eq!(instance_screen_action(&options[0]), InstanceAction::Stay);
    assert_eq!(instance_screen_action(&options[2]), InstanceAction::HostLocally);
    assert_eq!(instance_screen_action(&options[4]), InstanceAction::Exit);
}
