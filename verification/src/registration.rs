//! What the plugin registers with the host: one permission node and one
//! command bound to the responder.

use vstd::prelude::*;
use vstd::string::*;
use crate::responder::RulesExecutor;
use crate::text::{COMMAND_NAME, DESCRIPTION, PERMISSION_DESCRIPTION, PERMISSION_NODE};

verus! {

/// An operator level of the host, lowest first.
#[derive(Clone, Copy, Debug, PartialEq, Eq, Structural)]
pub enum OperatorLevel {
    Zero,
    One,
    Two,
    Three,
    Four,
}

/// Who holds a permission when nothing has been granted or revoked.
#[derive(Clone, Copy, Debug, PartialEq, Eq, Structural)]
pub enum GrantDefault {
    /// Nobody.
    Deny,
    /// Everybody.
    Allow,
    /// Operators of at least the given level.
    Operator(OperatorLevel),
}

/// A permission node as it is handed to the host.
#[derive(Debug, PartialEq, Eq)]
pub struct PermissionDescriptor {
    pub node: String,
    pub description: String,
    pub default: GrantDefault,
}

/// A permission descriptor as plain values.
pub struct PermissionView {
    pub node: Seq<char>,
    pub description: Seq<char>,
    pub default: GrantDefault,
}

impl View for PermissionDescriptor {
    type V = PermissionView;

    open spec fn view(&self) -> PermissionView {
        PermissionView {
            node: self.node@,
            description: self.description@,
            default: self.default,
        }
    }
}

/// The permission that gates the rules command: by default, operators only.
pub open spec fn rules_permission() -> PermissionView {
    PermissionView {
        node: PERMISSION_NODE@,
        description: PERMISSION_DESCRIPTION@,
        default: GrantDefault::Operator(OperatorLevel::Zero),
    }
}

impl PermissionDescriptor {
    /// Builds the permission that gates the rules command.
    pub fn for_rules() -> (permission: Self)
        ensures
            permission@ == rules_permission(),
    {
        PermissionDescriptor {
            node: String::from_str(PERMISSION_NODE),
            description: String::from_str(PERMISSION_DESCRIPTION),
            default: GrantDefault::Operator(OperatorLevel::Zero),
        }
    }
}

/// A command as it is handed to the host: its names, its description and the
/// handler that answers it.
#[derive(Debug, PartialEq, Eq)]
pub struct CommandBinding {
    pub names: Vec<String>,
    pub description: String,
    pub executor: RulesExecutor,
}

/// A command binding as plain values. The handler is its rules path.
pub struct CommandView {
    pub names: Seq<Seq<char>>,
    pub description: Seq<char>,
    pub rules_path: Seq<char>,
}

impl View for CommandBinding {
    type V = CommandView;

    open spec fn view(&self) -> CommandView {
        CommandView {
            names: self.names.deep_view(),
            description: self.description@,
            rules_path: self.executor@,
        }
    }
}

/// The rules command for the rules file at `rules_path`: a single name, no
/// aliases.
pub open spec fn rules_command(rules_path: Seq<char>) -> CommandView {
    CommandView {
        names: seq![COMMAND_NAME@],
        description: DESCRIPTION@,
        rules_path,
    }
}

impl CommandBinding {
    /// Builds the rules command, wired to a handler for the file at
    /// `rules_path`.
    pub fn for_rules(rules_path: String) -> (command: Self)
        ensures
            command@ == rules_command(rules_path@),
    {
        let mut names: Vec<String> = Vec::new();
        names.push(String::from_str(COMMAND_NAME));
        assert(names.deep_view() =~= seq![COMMAND_NAME@]);
        CommandBinding {
            names,
            description: String::from_str(DESCRIPTION),
            executor: RulesExecutor::new(rules_path),
        }
    }
}

} // verus!
