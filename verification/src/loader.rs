//! Loading the plugin, as a state machine.
//!
//! Loading alternates between work that only the host or the file system can
//! do and the decisions that follow from its outcome. The decisions are here:
//! [`RulezPlugin::on_load`] takes the state of a load and what the host just
//! reported, and gives the next state together with what to do next. The
//! program around the library performs each action and reports back.

use vstd::prelude::*;
use vstd::string::*;
use crate::registration::{
    rules_command, rules_permission, CommandBinding, CommandView, PermissionDescriptor,
    PermissionView,
};
use crate::text::{rules_path, rules_path_in, DEFAULT_RULES, PERMISSION_NODE};
use crate::RulezPlugin;

verus! {

/// How far a load has come. Each state but the last two awaits one report.
#[derive(Debug, PartialEq, Eq)]
pub enum LoadState {
    /// Nothing done yet; awaits the data directory.
    Start,
    /// Awaits the attempt to create the data directory.
    EnsuringDirectory { rules_path: String },
    /// Awaits the look for the rules file.
    ProbingFile { rules_path: String },
    /// Awaits the attempt to write the default rules.
    WritingDefault { rules_path: String },
    /// Awaits the registration of the permission.
    RegisteringPermission { rules_path: String },
    /// Awaits the registration of the command.
    RegisteringCommand,
    /// The plugin is active.
    Loaded,
    /// The load was given up; the plugin is not active.
    Failed { reason: String },
}

/// A load state as plain values.
pub enum LoadStateView {
    Start,
    EnsuringDirectory { rules_path: Seq<char> },
    ProbingFile { rules_path: Seq<char> },
    WritingDefault { rules_path: Seq<char> },
    RegisteringPermission { rules_path: Seq<char> },
    RegisteringCommand,
    Loaded,
    Failed { reason: Seq<char> },
}

impl View for LoadState {
    type V = LoadStateView;

    open spec fn view(&self) -> LoadStateView {
        match self {
            LoadState::Start => LoadStateView::Start,
            LoadState::EnsuringDirectory { rules_path } => LoadStateView::EnsuringDirectory {
                rules_path: rules_path@,
            },
            LoadState::ProbingFile { rules_path } => LoadStateView::ProbingFile {
                rules_path: rules_path@,
            },
            LoadState::WritingDefault { rules_path } => LoadStateView::WritingDefault {
                rules_path: rules_path@,
            },
            LoadState::RegisteringPermission { rules_path } => LoadStateView::RegisteringPermission {
                rules_path: rules_path@,
            },
            LoadState::RegisteringCommand => LoadStateView::RegisteringCommand,
            LoadState::Loaded => LoadStateView::Loaded,
            LoadState::Failed { reason } => LoadStateView::Failed { reason: reason@ },
        }
    }
}

/// What the host or the file system reported.
#[derive(Debug, PartialEq, Eq)]
pub enum HostEvent {
    /// The host handed over its context; `data_folder` is the plugin's data
    /// directory.
    Started { data_folder: String },
    /// The data directory was asked for; `created` tells whether that worked.
    DirectoryEnsured { created: bool },
    /// The rules file was looked for.
    FileProbed { exists: bool },
    /// The default rules were written, or not.
    DefaultWritten { written: bool },
    /// The host accepted the permission, or refused it with a reason.
    PermissionRegistered { result: Result<(), String> },
    /// The host took the command.
    CommandRegistered,
}

/// A report as plain values.
pub enum HostEventView {
    Started { data_folder: Seq<char> },
    DirectoryEnsured { created: bool },
    FileProbed { exists: bool },
    DefaultWritten { written: bool },
    PermissionRegistered { result: Result<(), Seq<char>> },
    CommandRegistered,
}

impl View for HostEvent {
    type V = HostEventView;

    open spec fn view(&self) -> HostEventView {
        match self {
            HostEvent::Started { data_folder } => HostEventView::Started {
                data_folder: data_folder@,
            },
            HostEvent::DirectoryEnsured { created } => HostEventView::DirectoryEnsured {
                created: *created,
            },
            HostEvent::FileProbed { exists } => HostEventView::FileProbed { exists: *exists },
            HostEvent::DefaultWritten { written } => HostEventView::DefaultWritten {
                written: *written,
            },
            HostEvent::PermissionRegistered { result } => HostEventView::PermissionRegistered {
                result: match result {
                    Ok(_) => Ok(()),
                    Err(reason) => Err(reason@),
                },
            },
            HostEvent::CommandRegistered => HostEventView::CommandRegistered,
        }
    }
}

/// What the program around the library is to do next.
#[derive(Debug, PartialEq, Eq)]
pub enum HostAction {
    /// Create the directory at `path` and all its parents; it may exist.
    EnsureDirectory { path: String },
    /// Tell whether anything exists at `path`.
    ProbeFile { path: String },
    /// Write `content` to the file at `path`.
    WriteFile { path: String, content: String },
    /// Register the permission with the host.
    RegisterPermission { permission: PermissionDescriptor },
    /// Register the command with the host, gated by the permission `node`.
    RegisterCommand { command: CommandBinding, node: String },
    /// Stop: the load ended with `result`.
    Finish { result: Result<(), String> },
}

/// An action as plain values.
pub enum HostActionView {
    EnsureDirectory { path: Seq<char> },
    ProbeFile { path: Seq<char> },
    WriteFile { path: Seq<char>, content: Seq<char> },
    RegisterPermission { permission: PermissionView },
    RegisterCommand { command: CommandView, node: Seq<char> },
    Finish { result: Result<(), Seq<char>> },
}

impl View for HostAction {
    type V = HostActionView;

    open spec fn view(&self) -> HostActionView {
        match self {
            HostAction::EnsureDirectory { path } => HostActionView::EnsureDirectory { path: path@ },
            HostAction::ProbeFile { path } => HostActionView::ProbeFile { path: path@ },
            HostAction::WriteFile { path, content } => HostActionView::WriteFile {
                path: path@,
                content: content@,
            },
            HostAction::RegisterPermission { permission } => HostActionView::RegisterPermission {
                permission: permission@,
            },
            HostAction::RegisterCommand { command, node } => HostActionView::RegisterCommand {
                command: command@,
                node: node@,
            },
            HostAction::Finish { result } => HostActionView::Finish {
                result: match result {
                    Ok(_) => Ok(()),
                    Err(reason) => Err(reason@),
                },
            },
        }
    }
}

/// One step of a load: the state that follows `state` on `event`, and the
/// action to take then. `None` where `event` is not the report that `state`
/// awaits; the two final states await none.
///
/// Whether the directory could be created and whether the default could be
/// written changes nothing: the load goes on either way. The default is
/// written exactly when the file was found missing. A refused permission ends
/// the load with the host's reason, and the command is never registered then.
pub open spec fn load_step(state: LoadStateView, event: HostEventView) -> Option<
    (LoadStateView, HostActionView),
> {
    match (state, event) {
        (LoadStateView::Start, HostEventView::Started { data_folder }) => Some(
            (
                LoadStateView::EnsuringDirectory { rules_path: rules_path(data_folder) },
                HostActionView::EnsureDirectory { path: data_folder },
            ),
        ),
        (
            LoadStateView::EnsuringDirectory { rules_path },
            HostEventView::DirectoryEnsured { created },
        ) => Some(
            (LoadStateView::ProbingFile { rules_path }, HostActionView::ProbeFile { path: rules_path }),
        ),
        (LoadStateView::ProbingFile { rules_path }, HostEventView::FileProbed { exists }) => Some(
            if exists {
                (
                    LoadStateView::RegisteringPermission { rules_path },
                    HostActionView::RegisterPermission { permission: rules_permission() },
                )
            } else {
                (
                    LoadStateView::WritingDefault { rules_path },
                    HostActionView::WriteFile { path: rules_path, content: DEFAULT_RULES@ },
                )
            },
        ),
        (LoadStateView::WritingDefault { rules_path }, HostEventView::DefaultWritten { written }) => Some(
            (
                LoadStateView::RegisteringPermission { rules_path },
                HostActionView::RegisterPermission { permission: rules_permission() },
            ),
        ),
        (
            LoadStateView::RegisteringPermission { rules_path },
            HostEventView::PermissionRegistered { result },
        ) => Some(
            match result {
                Ok(_) => (
                    LoadStateView::RegisteringCommand,
                    HostActionView::RegisterCommand {
                        command: rules_command(rules_path),
                        node: PERMISSION_NODE@,
                    },
                ),
                Err(reason) => (
                    LoadStateView::Failed { reason },
                    HostActionView::Finish { result: Err(reason) },
                ),
            },
        ),
        (LoadStateView::RegisteringCommand, HostEventView::CommandRegistered) => Some(
            (LoadStateView::Loaded, HostActionView::Finish { result: Ok(()) }),
        ),
        _ => None,
    }
}

/// The state and the action of a step, as plain values.
pub open spec fn step_view(step: Option<(LoadState, HostAction)>) -> Option<
    (LoadStateView, HostActionView),
> {
    match step {
        Some((state, action)) => Some((state@, action@)),
        None => None,
    }
}

/// The default rules are written at one point only: when the look for the
/// rules file found none. A step asks for a write if and only if it answers
/// that finding, and what it then writes is the default rules, to the rules
/// path the load has carried along.
pub proof fn write_only_when_missing(state: LoadStateView, event: HostEventView)
    ensures
        (load_step(state, event) matches Some((_, action)) && action is WriteFile) <==> (state
            is ProbingFile && event == HostEventView::FileProbed { exists: false }),
        load_step(state, event) matches Some((_, HostActionView::WriteFile { path, content }))
            ==> content == DEFAULT_RULES@ && state == (LoadStateView::ProbingFile {
            rules_path: path,
        }),
{
}

/// Whether the directory could be created, and whether the default could be
/// written, has no bearing on how the load goes on.
pub proof fn file_failures_are_ignored(state: LoadStateView, one: bool, other: bool)
    ensures
        load_step(state, HostEventView::DirectoryEnsured { created: one }) == load_step(
            state,
            HostEventView::DirectoryEnsured { created: other },
        ),
        load_step(state, HostEventView::DefaultWritten { written: one }) == load_step(
            state,
            HostEventView::DefaultWritten { written: other },
        ),
{
}

/// A load fails on a refused permission and on nothing else, and it fails
/// with the reason the host gave.
pub proof fn only_refused_permission_fails(state: LoadStateView, event: HostEventView)
    ensures
        (load_step(state, event) matches Some((next, _)) && next is Failed) <==> (state
            is RegisteringPermission && event matches HostEventView::PermissionRegistered {
            result: Err(_),
        }),
        load_step(state, event) matches Some((LoadStateView::Failed { reason }, action)) ==> event
            == (HostEventView::PermissionRegistered { result: Err(reason) }) && action == (
        HostActionView::Finish { result: Err(reason) }),
{
}

/// The command is only ever registered under the node of the permission
/// that the load registers, and only in answer to the host accepting that
/// permission.
pub proof fn command_only_under_accepted_permission(state: LoadStateView, event: HostEventView)
    ensures
        load_step(state, event) matches Some((_, HostActionView::RegisterCommand { command, node }))
            ==> {
            &&& node == rules_permission().node
            &&& state == (LoadStateView::RegisteringPermission { rules_path: command.rules_path })
            &&& event matches HostEventView::PermissionRegistered { result: Ok(_) }
        },
{
}

impl LoadState {
    /// The state in which every load begins.
    pub fn new() -> (state: Self)
        ensures
            state@ == LoadStateView::Start,
    {
        LoadState::Start
    }
}

impl RulezPlugin {
    /// Takes a load one step on: `state` is where the load stands and `event`
    /// what was just reported. Gives the next state and the next action, or
    /// `None` if `event` does not answer what `state` awaits.
    pub fn on_load(&self, state: LoadState, event: HostEvent) -> (step: Option<
        (LoadState, HostAction),
    >)
        ensures
            step_view(step) == load_step(state@, event@),
    {
        match (state, event) {
            (LoadState::Start, HostEvent::Started { data_folder }) => {
                let rules_path = rules_path_in(data_folder.as_str());
                Some(
                    (
                        LoadState::EnsuringDirectory { rules_path },
                        HostAction::EnsureDirectory { path: data_folder },
                    ),
                )
            },
            (LoadState::EnsuringDirectory { rules_path }, HostEvent::DirectoryEnsured { created: _ }) => {
                let path = rules_path.clone();
                Some((LoadState::ProbingFile { rules_path }, HostAction::ProbeFile { path }))
            },
            (LoadState::ProbingFile { rules_path }, HostEvent::FileProbed { exists }) => {
                if exists {
                    Some(
                        (
                            LoadState::RegisteringPermission { rules_path },
                            HostAction::RegisterPermission {
                                permission: PermissionDescriptor::for_rules(),
                            },
                        ),
                    )
                } else {
                    let path = rules_path.clone();
                    Some(
                        (
                            LoadState::WritingDefault { rules_path },
                            HostAction::WriteFile { path, content: String::from_str(DEFAULT_RULES) },
                        ),
                    )
                }
            },
            (LoadState::WritingDefault { rules_path }, HostEvent::DefaultWritten { written: _ }) => {
                Some(
                    (
                        LoadState::RegisteringPermission { rules_path },
                        HostAction::RegisterPermission {
                            permission: PermissionDescriptor::for_rules(),
                        },
                    ),
                )
            },
            (
                LoadState::RegisteringPermission { rules_path },
                HostEvent::PermissionRegistered { result },
            ) => {
                match result {
                    Ok(_) => Some(
                        (
                            LoadState::RegisteringCommand,
                            HostAction::RegisterCommand {
                                command: CommandBinding::for_rules(rules_path),
                                node: String::from_str(PERMISSION_NODE),
                            },
                        ),
                    ),
                    Err(reason) => {
                        let kept = reason.clone();
                        Some(
                            (LoadState::Failed { reason: kept }, HostAction::Finish { result: Err(reason) }),
                        )
                    },
                }
            },
            (LoadState::RegisteringCommand, HostEvent::CommandRegistered) => {
                Some((LoadState::Loaded, HostAction::Finish { result: Ok(()) }))
            },
            _ => None,
        }
    }
}

} // verus!
