//! The fixed texts of the plugin, each as a sequence of characters for
//! contracts and as an owned string for the running program.

use vstd::prelude::*;
use vstd::string::*;

verus! {

/// The one name under which the command is registered.
pub const COMMAND_NAME: &'static str = "rules";

/// The description shown for the command.
pub const DESCRIPTION: &'static str = "Shows the server rules.";

/// The permission node that gates the command.
pub const PERMISSION_NODE: &'static str = "rulez:rules";

/// The human-readable description of the permission node.
pub const PERMISSION_DESCRIPTION: &'static str = "Allows players to view server rules";

/// The name of the rules file inside the plugin's data directory, with the
/// separator that joins it to the directory.
pub const RULES_FILE_SUFFIX: &'static str = "/rules.txt";

/// What the command answers when the rules file cannot be read.
pub const FALLBACK_MESSAGE: &'static str = "§cRules file could not be read.";

/// What a fresh rules file holds.
pub const DEFAULT_RULES: &'static str = "\
§6§lServer Rules§r
§8» §7Be respectful to everyone
§8» §7No cheating or exploiting bugs
§8» §7No spamming or advertising
§8» §7Listen to §cstaff §7at all times
§8» §7Have fun and use common sense §c❤
";

/// The path of the rules file for a given data directory: the directory, a
/// slash, and the file's name.
pub open spec fn rules_path(data_folder: Seq<char>) -> Seq<char> {
    data_folder + RULES_FILE_SUFFIX@
}

/// Computes the path of the rules file inside `data_folder`.
pub fn rules_path_in(data_folder: &str) -> (path: String)
    ensures
        path@ == rules_path(data_folder@),
{
    String::from_str(data_folder).concat(RULES_FILE_SUFFIX)
}

} // verus!
