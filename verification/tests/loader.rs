use rulez::loader::{HostAction, HostEvent, LoadState};
use rulez::registration::{CommandBinding, PermissionDescriptor};
use rulez::text::{DEFAULT_RULES, PERMISSION_NODE};
use rulez::RulezPlugin;

fn path() -> String {
    String::from("plugins/rulez/rules.txt")
}

#[test]
fn load_begins_at_start() {
    assert_eq!(LoadState::new(), LoadState::Start);
}

#[test]
fn start_asks_for_the_directory() {
    let step = RulezPlugin::new().on_load(
        LoadState::new(),
        HostEvent::Started { data_folder: String::from("plugins/rulez") },
    );
    assert_eq!(
        step,
        Some((
            LoadState::EnsuringDirectory { rules_path: path() },
            HostAction::EnsureDirectory { path: String::from("plugins/rulez") },
        ))
    );
}

#[test]
fn directory_outcome_is_ignored() {
    for created in [true, false] {
        let step = RulezPlugin::new().on_load(
            LoadState::EnsuringDirectory { rules_path: path() },
            HostEvent::DirectoryEnsured { created },
        );
        assert_eq!(
            step,
            Some((LoadState::ProbingFile { rules_path: path() }, HostAction::ProbeFile { path: path() }))
        );
    }
}

#[test]
fn missing_file_gets_the_default() {
    let step = RulezPlugin::new()
        .on_load(LoadState::ProbingFile { rules_path: path() }, HostEvent::FileProbed { exists: false });
    assert_eq!(
        step,
        Some((
            LoadState::WritingDefault { rules_path: path() },
            HostAction::WriteFile { path: path(), content: String::from(DEFAULT_RULES) },
        ))
    );
}

#[test]
fn existing_file_is_not_written() {
    let step = RulezPlugin::new()
        .on_load(LoadState::ProbingFile { rules_path: path() }, HostEvent::FileProbed { exists: true });
    assert_eq!(
        step,
        Some((
            LoadState::RegisteringPermission { rules_path: path() },
            HostAction::RegisterPermission { permission: PermissionDescriptor::for_rules() },
        ))
    );
}

#[test]
fn write_outcome_is_ignored() {
    for written in [true, false] {
        let step = RulezPlugin::new().on_load(
            LoadState::WritingDefault { rules_path: path() },
            HostEvent::DefaultWritten { written },
        );
        assert_eq!(
            step,
            Some((
                LoadState::RegisteringPermission { rules_path: path() },
                HostAction::RegisterPermission { permission: PermissionDescriptor::for_rules() },
            ))
        );
    }
}

#[test]
fn accepted_permission_leads_to_the_command() {
    let step = RulezPlugin::new().on_load(
        LoadState::RegisteringPermission { rules_path: path() },
        HostEvent::PermissionRegistered { result: Ok(()) },
    );
    assert_eq!(
        step,
        Some((
            LoadState::RegisteringCommand,
            HostAction::RegisterCommand {
                command: CommandBinding::for_rules(path()),
                node: String::from("rulez:rules"),
            },
        ))
    );
}

#[test]
fn command_gate_is_the_permission_node() {
    let step = RulezPlugin::new().on_load(
        LoadState::RegisteringPermission { rules_path: path() },
        HostEvent::PermissionRegistered { result: Ok(()) },
    );
    match step {
        Some((_, HostAction::RegisterCommand { command, node })) => {
            assert_eq!(node, PERMISSION_NODE);
            assert_eq!(node, PermissionDescriptor::for_rules().node);
            assert_eq!(command.executor.rules_path(), "plugins/rulez/rules.txt");
        }
        other => panic!("no command registration: {:?}", other),
    }
}

#[test]
fn refused_permission_fails_the_load() {
    let step = RulezPlugin::new().on_load(
        LoadState::RegisteringPermission { rules_path: path() },
        HostEvent::PermissionRegistered { result: Err(String::from("node already registered")) },
    );
    assert_eq!(
        step,
        Some((
            LoadState::Failed { reason: String::from("node already registered") },
            HostAction::Finish { result: Err(String::from("node already registered")) },
        ))
    );
}

#[test]
fn registered_command_finishes_the_load() {
    let step = RulezPlugin::new().on_load(LoadState::RegisteringCommand, HostEvent::CommandRegistered);
    assert_eq!(step, Some((LoadState::Loaded, HostAction::Finish { result: Ok(()) })));
}

#[test]
fn final_states_take_no_event() {
    let plugin = RulezPlugin::new();
    assert_eq!(plugin.on_load(LoadState::Loaded, HostEvent::CommandRegistered), None);
    assert_eq!(
        plugin.on_load(
            LoadState::Loaded,
            HostEvent::Started { data_folder: String::from("plugins/rulez") }
        ),
        None
    );
    assert_eq!(
        plugin.on_load(
            LoadState::Failed { reason: String::from("refused") },
            HostEvent::PermissionRegistered { result: Ok(()) }
        ),
        None
    );
}

#[test]
fn event_out_of_turn_is_rejected() {
    let plugin = RulezPlugin::new();
    assert_eq!(plugin.on_load(LoadState::Start, HostEvent::FileProbed { exists: false }), None);
    assert_eq!(plugin.on_load(LoadState::Start, HostEvent::CommandRegistered), None);
    assert_eq!(
        plugin.on_load(
            LoadState::EnsuringDirectory { rules_path: path() },
            HostEvent::FileProbed { exists: true }
        ),
        None
    );
    assert_eq!(
        plugin.on_load(
            LoadState::ProbingFile { rules_path: path() },
            HostEvent::DefaultWritten { written: true }
        ),
        None
    );
    assert_eq!(
        plugin.on_load(
            LoadState::WritingDefault { rules_path: path() },
            HostEvent::FileProbed { exists: false }
        ),
        None
    );
    assert_eq!(
        plugin.on_load(
            LoadState::RegisteringPermission { rules_path: path() },
            HostEvent::CommandRegistered
        ),
        None
    );
    assert_eq!(
        plugin.on_load(
            LoadState::RegisteringCommand,
            HostEvent::PermissionRegistered { result: Ok(()) }
        ),
        None
    );
}
