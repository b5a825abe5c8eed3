//! A model of the host and the file system, and what a whole load achieves
//! against it.
//!
//! [`RulezPlugin::on_load`](crate::RulezPlugin::on_load) decides one step at a
//! time. The statements here are about all the steps of a load taken
//! together: the model performs each action the way an honest host would and
//! reports back, until the load finishes. Nothing here runs; it is what the
//! step function is proved to add up to.

use vstd::prelude::*;
use crate::loader::{load_step, HostActionView, HostEventView, LoadStateView};
use crate::registration::{rules_command, rules_permission, CommandView, PermissionView};
use crate::responder::reply_text;
use crate::text::{rules_path, DEFAULT_RULES, PERMISSION_NODE};

verus! {

/// How the surroundings behave during one load.
pub struct HostModel {
    /// The plugin's data directory.
    pub data_folder: Seq<char>,
    /// Whether creating the data directory works.
    pub directory_works: bool,
    /// Whether writing a file works.
    pub write_works: bool,
    /// How the host answers the registration of a permission.
    pub registration: Result<(), Seq<char>>,
}

/// A command in the host's table, with the permission node that gates it.
pub struct GatedCommand {
    pub command: CommandView,
    pub permission: Seq<char>,
}

/// What a load can change: the files, by path, and the host's two tables.
pub struct World {
    pub files: Map<Seq<char>, Seq<char>>,
    pub permissions: Seq<PermissionView>,
    pub commands: Seq<GatedCommand>,
}

/// What reading the file at `path` gives: its text, or nothing if there is
/// no such file.
pub open spec fn read_file(world: World, path: Seq<char>) -> Option<Seq<char>> {
    if world.files.dom().contains(path) {
        Some(world.files[path])
    } else {
        None
    }
}

/// Performs one action: the report it leads to and the world after it.
/// `Finish` is not performed; a load is over when it comes.
pub open spec fn perform(host: HostModel, world: World, action: HostActionView) -> (
    HostEventView,
    World,
) {
    match action {
        HostActionView::EnsureDirectory { path } => (
            HostEventView::DirectoryEnsured { created: host.directory_works },
            world,
        ),
        HostActionView::ProbeFile { path } => (
            HostEventView::FileProbed { exists: world.files.dom().contains(path) },
            world,
        ),
        HostActionView::WriteFile { path, content } => (
            HostEventView::DefaultWritten { written: host.write_works },
            if host.write_works {
                World { files: world.files.insert(path, content), ..world }
            } else {
                world
            },
        ),
        HostActionView::RegisterPermission { permission } => (
            HostEventView::PermissionRegistered { result: host.registration },
            if host.registration is Ok {
                World { permissions: world.permissions.push(permission), ..world }
            } else {
                world
            },
        ),
        HostActionView::RegisterCommand { command, node } => (
            HostEventView::CommandRegistered,
            World {
                commands: world.commands.push(GatedCommand { command, permission: node }),
                ..world
            },
        ),
        HostActionView::Finish { result } => (HostEventView::CommandRegistered, world),
    }
}

/// How a load ended: what the host is told, and the world it left.
pub struct LoadOutcome {
    pub result: Result<(), Seq<char>>,
    pub world: World,
}

/// Carries a load on from `state` with `action` pending, for at most `fuel`
/// actions. `None` if the load did not finish within them, or fell out of
/// step with the host.
pub open spec fn run(
    host: HostModel,
    world: World,
    state: LoadStateView,
    action: HostActionView,
    fuel: nat,
) -> Option<LoadOutcome>
    decreases fuel,
{
    match action {
        HostActionView::Finish { result } => Some(LoadOutcome { result, world }),
        _ => if fuel == 0 {
            None
        } else {
            let (event, after) = perform(host, world, action);
            match load_step(state, event) {
                Some((next, then)) => run(host, after, next, then, (fuel - 1) as nat),
                None => None,
            }
        },
    }
}

/// The most actions a load asks for before it finishes.
pub open spec fn max_actions() -> nat {
    5
}

/// A whole load against `host`, begun in `world`.
pub open spec fn load(host: HostModel, world: World) -> Option<LoadOutcome> {
    match load_step(
        LoadStateView::Start,
        HostEventView::Started { data_folder: host.data_folder },
    ) {
        Some((state, action)) => run(host, world, state, action, max_actions()),
        None => None,
    }
}

/// The files after a load: the default rules appear at the rules path if
/// there was no file there and writing works; otherwise no file changes.
pub open spec fn files_after_load(host: HostModel, world: World) -> Map<Seq<char>, Seq<char>> {
    let path = rules_path(host.data_folder);
    if !world.files.dom().contains(path) && host.write_works {
        world.files.insert(path, DEFAULT_RULES@)
    } else {
        world.files
    }
}

/// The world after a load: the files as [`files_after_load`] says, and, if
/// the host accepted the permission, the permission and the command added to
/// its tables, the command gated by that permission's node.
pub open spec fn world_after_load(host: HostModel, world: World) -> World {
    let path = rules_path(host.data_folder);
    if host.registration is Ok {
        World {
            files: files_after_load(host, world),
            permissions: world.permissions.push(rules_permission()),
            commands: world.commands.push(
                GatedCommand { command: rules_command(path), permission: PERMISSION_NODE@ },
            ),
        }
    } else {
        World { files: files_after_load(host, world), ..world }
    }
}

/// Every load finishes, whatever the host answers and whatever was on disk.
/// It ends with the host's answer to the permission: success if the host
/// accepted it, the host's reason if not. Failing to create the directory or
/// to write the file never fails the load. The world it leaves is
/// [`world_after_load`].
pub proof fn load_finishes(host: HostModel, world: World)
    ensures
        load(host, world) == Some(
            LoadOutcome { result: host.registration, world: world_after_load(host, world) },
        ),
{
    reveal_with_fuel(run, 6);
    let path = rules_path(host.data_folder);
    let outcome = load(host, world);
    assert(outcome is Some);
    assert(outcome->0.world.files =~= files_after_load(host, world));
    assert(outcome->0.world =~= world_after_load(host, world));
    assert(outcome->0.result == host.registration) by {
        if let Ok(unit) = host.registration {
            assert(unit == ());
        }
    }
}

/// A load never changes a rules file that is already there, and never
/// touches any other file: with a file at the rules path, all files are
/// after the load what they were before.
pub proof fn load_keeps_existing_rules(host: HostModel, world: World)
    requires
        world.files.dom().contains(rules_path(host.data_folder)),
    ensures
        load(host, world) is Some,
        load(host, world)->0.world.files == world.files,
{
    load_finishes(host, world);
}

/// The default rules are written exactly when there is no rules file at
/// load time: the load changes the files if and only if the file was
/// missing and writing works, and what it changes is the rules file alone,
/// which then holds the default rules.
pub proof fn load_writes_default_iff_missing(host: HostModel, world: World)
    ensures
        load(host, world) is Some,
        !world.files.dom().contains(rules_path(host.data_folder)) && host.write_works
            ==> load(host, world)->0.world.files == world.files.insert(
            rules_path(host.data_folder),
            DEFAULT_RULES@,
        ),
        world.files.dom().contains(rules_path(host.data_folder)) || !host.write_works ==> load(
            host,
            world,
        )->0.world.files == world.files,
{
    load_finishes(host, world);
}

/// Loading again changes no file, once a rules file is there: if the first
/// load found or could write the rules file, a second load from the same
/// data directory leaves every file as the first one left it, whatever the
/// file holds and however the host answers the second time.
pub proof fn second_load_keeps_files(first: HostModel, second: HostModel, world: World)
    requires
        first.data_folder == second.data_folder,
        world.files.dom().contains(rules_path(first.data_folder)) || first.write_works,
    ensures
        load(first, world) is Some,
        load(second, load(first, world)->0.world) is Some,
        load(second, load(first, world)->0.world)->0.world.files == load(
            first,
            world,
        )->0.world.files,
{
    load_finishes(first, world);
    load_finishes(second, world_after_load(first, world));
}

/// The command is registered only under the permission that was registered
/// before it: a load adds the command to the host's table if and only if
/// the host accepted the permission, and then the command's gate is the
/// node of that permission.
pub proof fn command_gated_by_registered_permission(host: HostModel, world: World)
    ensures
        load(host, world) is Some,
        host.registration is Err ==> {
            &&& load(host, world)->0.world.commands == world.commands
            &&& load(host, world)->0.world.permissions == world.permissions
        },
        host.registration is Ok ==> {
            let after = load(host, world)->0.world;
            &&& after.commands.len() == world.commands.len() + 1
            &&& after.permissions.len() == world.permissions.len() + 1
            &&& after.commands.last().permission == after.permissions.last().node
            &&& after.commands.last().permission == PERMISSION_NODE@
            &&& after.commands.last().command == rules_command(rules_path(host.data_folder))
            &&& after.permissions.last() == rules_permission()
        },
{
    load_finishes(host, world);
}

/// After a load, the command answers with the rules file as it is then: with
/// the text that was there before the load, if there was a file, and with
/// the default rules, if there was none and it could be written.
pub proof fn reply_after_load(host: HostModel, world: World)
    requires
        host.registration is Ok,
    ensures
        load(host, world) is Some,
        ({
            let path = rules_path(host.data_folder);
            let after = load(host, world)->0.world;
            let sent = reply_text(read_file(after, after.commands.last().command.rules_path));
            &&& world.files.dom().contains(path) ==> sent == world.files[path]
            &&& !world.files.dom().contains(path) && host.write_works ==> sent == DEFAULT_RULES@
        }),
{
    load_finishes(host, world);
}

} // verus!
