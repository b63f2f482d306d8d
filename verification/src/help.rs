//! The help catalogue: the table of commands and the text rendered from it.
use crate::text::{lemma_occurs_in_middle, lemma_occurs_in_trans, occurs_in, str_equal};
use vstd::prelude::*;
use vstd::string::*;

verus! {

/// One command of the catalogue.
#[derive(Debug, Clone, Copy)]
pub struct CommandHelp {
    pub command: &'static str,
    pub description: &'static str,
    pub subcommands: &'static [SubCommand],
    /// The systems that have the command: `"windows"`, `"unix"` or `"all"`.
    pub supported_os: &'static [&'static str],
}

/// One subcommand of a command.
#[derive(Debug, Clone, Copy)]
pub struct SubCommand {
    pub name: &'static str,
    pub description: &'static str,
}

/// The text of a [`SubCommand`].
pub ghost struct SubCommandText {
    pub name: Seq<char>,
    pub description: Seq<char>,
}

/// The text of a [`CommandHelp`].
pub ghost struct CommandText {
    pub command: Seq<char>,
    pub description: Seq<char>,
    pub subcommands: Seq<SubCommandText>,
    pub supported_os: Seq<Seq<char>>,
}

impl View for SubCommand {
    type V = SubCommandText;

    open spec fn view(&self) -> SubCommandText {
        SubCommandText { name: self.name@, description: self.description@ }
    }
}

impl View for CommandHelp {
    type V = CommandText;

    open spec fn view(&self) -> CommandText {
        CommandText {
            command: self.command@,
            description: self.description@,
            subcommands: self.subcommands@.map_values(|s: SubCommand| s@),
            supported_os: self.supported_os@.map_values(|s: &'static str| s@),
        }
    }
}

/// The catalogue, in the order in which the help text lists it.
pub open spec fn help_table() -> Seq<CommandText> {
    seq![
        CommandText {
            command: "/clear"@,
            description: "Clear the conversation history"@,
            subcommands: seq![],
            supported_os: seq!["all"@],
        },
        CommandText {
            command: "/issue"@,
            description: "Report an issue or make a feature request"@,
            subcommands: seq![],
            supported_os: seq!["all"@],
        },
        CommandText {
            command: "/editor"@,
            description: "Open $EDITOR (defaults to vi) to compose a prompt"@,
            subcommands: seq![],
            supported_os: seq!["unix"@],
        },
        CommandText {
            command: "/help"@,
            description: "Show this help dialogue"@,
            subcommands: seq![],
            supported_os: seq!["all"@],
        },
        CommandText {
            command: "/quit"@,
            description: "Quit the application"@,
            subcommands: seq![],
            supported_os: seq!["all"@],
        },
        CommandText {
            command: "/compact"@,
            description: "Summarize the conversation to free up context space"@,
            subcommands: seq![
                SubCommandText { name: "help"@, description: "Show help for the compact command"@ },
                SubCommandText { name: "[prompt]"@, description: "Optional custom prompt to guide summarization"@ },
            ],
            supported_os: seq!["all"@],
        },
        CommandText {
            command: "/tools"@,
            description: "View and manage tools and permissions"@,
            subcommands: seq![
                SubCommandText { name: "help"@, description: "Show an explanation for the trust command"@ },
                SubCommandText { name: "trust"@, description: "Trust a specific tool or tools for the session"@ },
                SubCommandText { name: "untrust"@, description: "Revert a tool or tools to per-request confirmation"@ },
                SubCommandText { name: "trustall"@, description: "Trust all tools (equivalent to deprecated /acceptall)"@ },
                SubCommandText { name: "reset"@, description: "Reset all tools to default permission levels"@ },
            ],
            supported_os: seq!["all"@],
        },
        CommandText {
            command: "/mcp"@,
            description: "See mcp server loaded"@,
            subcommands: seq![],
            supported_os: seq!["all"@],
        },
        CommandText {
            command: "/model"@,
            description: "Select a model for the current conversation session"@,
            subcommands: seq![],
            supported_os: seq!["all"@],
        },
        CommandText {
            command: "/profile"@,
            description: "Manage profiles"@,
            subcommands: seq![
                SubCommandText { name: "help"@, description: "Show profile help"@ },
                SubCommandText { name: "list"@, description: "List profiles"@ },
                SubCommandText { name: "set"@, description: "Set the current profile"@ },
                SubCommandText { name: "create"@, description: "Create a new profile"@ },
                SubCommandText { name: "delete"@, description: "Delete a profile"@ },
                SubCommandText { name: "rename"@, description: "Rename a profile"@ },
            ],
            supported_os: seq!["all"@],
        },
        CommandText {
            command: "/prompts"@,
            description: "View and retrieve prompts"@,
            subcommands: seq![
                SubCommandText { name: "help"@, description: "Show prompts help"@ },
                SubCommandText { name: "list"@, description: "List or search available prompts"@ },
                SubCommandText { name: "get"@, description: "Retrieve and send a prompt"@ },
            ],
            supported_os: seq!["all"@],
        },
        CommandText {
            command: "/context"@,
            description: "Manage context files and hooks for the chat session"@,
            subcommands: seq![
                SubCommandText { name: "help"@, description: "Show context help"@ },
                SubCommandText { name: "show"@, description: "Display current context rules configuration [--expand]"@ },
                SubCommandText { name: "add"@, description: "Add file(s) to context [--global] [--force]"@ },
                SubCommandText { name: "rm"@, description: "Remove file(s) from context [--global]"@ },
                SubCommandText { name: "clear"@, description: "Clear all files from current context [--global]"@ },
                SubCommandText { name: "hooks"@, description: "View and manage context hooks"@ },
            ],
            supported_os: seq!["all"@],
        },
        CommandText {
            command: "/usage"@,
            description: "Show current session's context window usage"@,
            subcommands: seq![],
            supported_os: seq!["all"@],
        },
        CommandText {
            command: "/load"@,
            description: "Load conversation state from a JSON file"@,
            subcommands: seq![],
            supported_os: seq!["all"@],
        },
        CommandText {
            command: "/save"@,
            description: "Save conversation state to a JSON file"@,
            subcommands: seq![],
            supported_os: seq!["all"@],
        },
        CommandText {
            command: "/subscribe"@,
            description: "Upgrade to a Q Developer Pro subscription for increased query limits"@,
            subcommands: seq![
                SubCommandText { name: "manage"@, description: "View and manage your existing subscription on AWS"@ },
            ],
            supported_os: seq!["all"@],
        },
    ]
}

/// The catalogue as data.
pub fn help_commands() -> (table: &'static [CommandHelp])
    ensures
        table@.map_values(|c: CommandHelp| c@) == help_table(),
{
    let table: &'static [CommandHelp] = &[
        CommandHelp {
            command: "/clear",
            description: "Clear the conversation history",
            subcommands: &[],
            supported_os: &["all"],
        },
        CommandHelp {
            command: "/issue",
            description: "Report an issue or make a feature request",
            subcommands: &[],
            supported_os: &["all"],
        },
        CommandHelp {
            command: "/editor",
            description: "Open $EDITOR (defaults to vi) to compose a prompt",
            subcommands: &[],
            supported_os: &["unix"],
        },
        CommandHelp {
            command: "/help",
            description: "Show this help dialogue",
            subcommands: &[],
            supported_os: &["all"],
        },
        CommandHelp {
            command: "/quit",
            description: "Quit the application",
            subcommands: &[],
            supported_os: &["all"],
        },
        CommandHelp {
            command: "/compact",
            description: "Summarize the conversation to free up context space",
            subcommands: &[
                SubCommand { name: "help", description: "Show help for the compact command" },
                SubCommand { name: "[prompt]", description: "Optional custom prompt to guide summarization" },
            ],
            supported_os: &["all"],
        },
        CommandHelp {
            command: "/tools",
            description: "View and manage tools and permissions",
            subcommands: &[
                SubCommand { name: "help", description: "Show an explanation for the trust command" },
                SubCommand { name: "trust", description: "Trust a specific tool or tools for the session" },
                SubCommand { name: "untrust", description: "Revert a tool or tools to per-request confirmation" },
                SubCommand { name: "trustall", description: "Trust all tools (equivalent to deprecated /acceptall)" },
                SubCommand { name: "reset", description: "Reset all tools to default permission levels" },
            ],
            supported_os: &["all"],
        },
        CommandHelp {
            command: "/mcp",
            description: "See mcp server loaded",
            subcommands: &[],
            supported_os: &["all"],
        },
        CommandHelp {
            command: "/model",
            description: "Select a model for the current conversation session",
            subcommands: &[],
            supported_os: &["all"],
        },
        CommandHelp {
            command: "/profile",
            description: "Manage profiles",
            subcommands: &[
                SubCommand { name: "help", description: "Show profile help" },
                SubCommand { name: "list", description: "List profiles" },
                SubCommand { name: "set", description: "Set the current profile" },
                SubCommand { name: "create", description: "Create a new profile" },
                SubCommand { name: "delete", description: "Delete a profile" },
                SubCommand { name: "rename", description: "Rename a profile" },
            ],
            supported_os: &["all"],
        },
        CommandHelp {
            command: "/prompts",
            description: "View and retrieve prompts",
            subcommands: &[
                SubCommand { name: "help", description: "Show prompts help" },
                SubCommand { name: "list", description: "List or search available prompts" },
                SubCommand { name: "get", description: "Retrieve and send a prompt" },
            ],
            supported_os: &["all"],
        },
        CommandHelp {
            command: "/context",
            description: "Manage context files and hooks for the chat session",
            subcommands: &[
                SubCommand { name: "help", description: "Show context help" },
                SubCommand { name: "show", description: "Display current context rules configuration [--expand]" },
                SubCommand { name: "add", description: "Add file(s) to context [--global] [--force]" },
                SubCommand { name: "rm", description: "Remove file(s) from context [--global]" },
                SubCommand { name: "clear", description: "Clear all files from current context [--global]" },
                SubCommand { name: "hooks", description: "View and manage context hooks" },
            ],
            supported_os: &["all"],
        },
        CommandHelp {
            command: "/usage",
            description: "Show current session's context window usage",
            subcommands: &[],
            supported_os: &["all"],
        },
        CommandHelp {
            command: "/load",
            description: "Load conversation state from a JSON file",
            subcommands: &[],
            supported_os: &["all"],
        },
        CommandHelp {
            command: "/save",
            description: "Save conversation state to a JSON file",
            subcommands: &[],
            supported_os: &["all"],
        },
        CommandHelp {
            command: "/subscribe",
            description: "Upgrade to a Q Developer Pro subscription for increased query limits",
            subcommands: &[
                SubCommand { name: "manage", description: "View and manage your existing subscription on AWS" },
            ],
            supported_os: &["all"],
        },
    ];
    assert forall|i: int| 0 <= i < table@.len() implies (#[trigger] table@[i])@
        == help_table()[i] by {
        assert(table@[i]@.subcommands =~= help_table()[i].subcommands);
        assert(table@[i]@.supported_os =~= help_table()[i].supported_os);
    }
    assert(table@.map_values(|c: CommandHelp| c@) =~= help_table());
    table
}

/// How the help text begins: two empty lines, the title and the heading of
/// the command list.
pub const HELP_HEADER: &'static str =
    "\n\n\x1b[35m\x1b[1mq\x1b[39m\x1b[22m (Amazon Q Chat)\n\n\x1b[36m\x1b[1mCommands:\x1b[39m\x1b[22m\n";

/// The section on MCP servers, which follows the command list.
pub const HELP_MCP: &'static str =
    "\n\x1b[36m\x1b[1mMCP:\x1b[39m\x1b[22m\n\x1b[90mYou can now configure the Amazon Q CLI to use MCP servers. \\nLearn how: https://docs.aws.amazon.com/en_us/amazonq/latest/qdeveloper-ug/command-line-mcp.html\x1b[39m\n\n";

/// The section of tips, which ends the help text.
pub const HELP_TIPS: &'static str =
    "\x1b[36m\x1b[1mTips:\x1b[39m\x1b[22m\n\x1b[1m!{command}\x1b[22m            \x1b[90mQuickly execute a command in your current session\x1b[39m\n\x1b[1mCtrl(^) + j\x1b[22m           \x1b[90mInsert new-line to provide multi-line prompt. Alternatively, [Alt(⌥) + Enter(⏎)]\x1b[39m\n\x1b[1mCtrl(^) + s\x1b[22m           \x1b[90mFuzzy search commands and context files. Use Tab to select multiple items.\x1b[39m\n                      \x1b[90mChange the keybind to ctrl+x with: q settings chat.skimCommandKey x (where x is any key)\x1b[39m\n\x1b[1mchat.editMode\x1b[22m         \x1b[90mSet editing mode (vim or emacs) using: q settings chat.editMode vi/emacs\x1b[39m\n\n";

/// `text` in bold.
pub open spec fn emphasized(text: Seq<char>) -> Seq<char> {
    "\x1b[1m"@ + text + "\x1b[22m"@
}

/// `text` in the grey of descriptions.
pub open spec fn muted(text: Seq<char>) -> Seq<char> {
    "\x1b[90m"@ + text + "\x1b[39m"@
}

/// One line of the command list: the name in bold, a gap, the description in
/// grey.
pub open spec fn entry_line(indent: Seq<char>, name: Seq<char>, description: Seq<char>) -> Seq<
    char,
> {
    indent + emphasized(name) + "        "@ + muted(description) + "\n"@
}

/// The lines of a command's subcommands, in their order, each indented.
pub open spec fn subcommand_lines(subcommands: Seq<SubCommandText>) -> Seq<char>
    decreases subcommands.len(),
{
    if subcommands.len() == 0 {
        Seq::empty()
    } else {
        subcommand_lines(subcommands.drop_last()) + entry_line(
            "  "@,
            subcommands.last().name,
            subcommands.last().description,
        )
    }
}

/// What the help text says of one command: its line, then its subcommands.
pub open spec fn command_block(command: CommandText) -> Seq<char> {
    entry_line(Seq::empty(), command.command, command.description) + subcommand_lines(
        command.subcommands,
    )
}

/// The blocks of `commands`, one after the other.
pub open spec fn command_blocks(commands: Seq<CommandText>) -> Seq<char>
    decreases commands.len(),
{
    if commands.len() == 0 {
        Seq::empty()
    } else {
        command_blocks(commands.drop_last()) + command_block(commands.last())
    }
}

/// Whether a command exists on the system `os`: it names that system, or
/// `"all"`.
pub open spec fn is_supported(command: CommandText, os: Seq<char>) -> bool {
    command.supported_os.contains("all"@) || command.supported_os.contains(os)
}

/// The commands of `table` that exist on `os`, in the order of the table.
pub open spec fn shown_commands(table: Seq<CommandText>, os: Seq<char>) -> Seq<CommandText> {
    table.filter(|c: CommandText| is_supported(c, os))
}

/// The help text rendered from `table` for the system `os`: the header, the
/// blocks of the commands that exist there, and the two closing sections.
pub open spec fn help_text(table: Seq<CommandText>, os: Seq<char>) -> Seq<char> {
    HELP_HEADER@ + command_blocks(shown_commands(table, os)) + HELP_MCP@ + HELP_TIPS@
}

/// Whether `names` holds `name`.
fn names_contain(names: &[&'static str], name: &str) -> (found: bool)
    ensures
        found == names@.map_values(|s: &'static str| s@).contains(name@),
{
    let ghost views = names@.map_values(|s: &'static str| s@);
    let mut i: usize = 0;
    while i < names.len()
        invariant
            i <= names@.len(),
            views == names@.map_values(|s: &'static str| s@),
            forall|j: int| 0 <= j < i ==> views[j] != name@,
        decreases names@.len() - i,
    {
        if str_equal(names[i], name) {
            assert(views[i as int] == name@);
            return true;
        }
        i += 1;
    }
    false
}

/// Whether `command` exists on the system `os`.
pub fn is_supported_on(command: &CommandHelp, os: &str) -> (supported: bool)
    ensures
        supported == is_supported(command@, os@),
{
    names_contain(command.supported_os, "all") || names_contain(command.supported_os, os)
}

/// Appends one line of the command list to `text`.
fn push_entry(text: &mut String, indent: &str, name: &str, description: &str)
    ensures
        final(text)@ == old(text)@ + entry_line(indent@, name@, description@),
{
    text.append(indent);
    text.append("\x1b[1m");
    text.append(name);
    text.append("\x1b[22m");
    text.append("        ");
    text.append("\x1b[90m");
    text.append(description);
    text.append("\x1b[39m");
    text.append("\n");
    assert(text@ =~= old(text)@ + entry_line(indent@, name@, description@));
}

/// Appends the block of `command` to `text`.
fn push_command(text: &mut String, command: &CommandHelp)
    ensures
        final(text)@ == old(text)@ + command_block(command@),
{
    push_entry(text, "", command.command, command.description);
    proof {
        reveal_strlit("");
        assert(""@ =~= Seq::<char>::empty());
    }
    let ghost subs = command@.subcommands;
    let ghost line = entry_line(Seq::empty(), command@.command, command@.description);
    let mut i: usize = 0;
    assert(subs.take(0) =~= Seq::<SubCommandText>::empty());
    assert(text@ =~= old(text)@ + line + subcommand_lines(subs.take(0)));
    while i < command.subcommands.len()
        invariant
            i <= command.subcommands@.len(),
            subs == command@.subcommands,
            subs.len() == command.subcommands@.len(),
            text@ == old(text)@ + line + subcommand_lines(subs.take(i as int)),
        decreases command.subcommands@.len() - i,
    {
        let sub = &command.subcommands[i];
        push_entry(text, "  ", sub.name, sub.description);
        proof {
            let next = subs.take(i + 1);
            assert(next.drop_last() =~= subs.take(i as int));
            assert(next.last() == sub@);
            assert(text@ =~= old(text)@ + line + subcommand_lines(next));
        }
        i += 1;
    }
    assert(subs.take(i as int) =~= subs);
    assert(text@ =~= old(text)@ + command_block(command@));
}

/// The commands shown grow with the table: one more entry adds itself where
/// it is supported, and nothing where it is not.
proof fn lemma_shown_commands_step(table: Seq<CommandText>, os: Seq<char>, i: int)
    requires
        0 <= i < table.len(),
    ensures
        shown_commands(table.take(i + 1), os) == if is_supported(table[i], os) {
            shown_commands(table.take(i), os).push(table[i])
        } else {
            shown_commands(table.take(i), os)
        },
{
    reveal(Seq::filter);
    assert(table.take(i + 1).drop_last() =~= table.take(i));
}

/// Renders the help text for the system `current_os` (`"windows"`, `"unix"`
/// or another tag): the header, one block for each command of the catalogue
/// that exists on that system, in the catalogue's order, and the closing
/// sections.
pub fn generate_help_text(current_os: &str) -> (text: String)
    ensures
        text@ == help_text(help_table(), current_os@),
{
    let table = help_commands();
    let ghost views = table@.map_values(|c: CommandHelp| c@);
    let ghost os = current_os@;
    let mut text = String::new();
    text.append(HELP_HEADER);
    let mut i: usize = 0;
    proof {
        reveal(Seq::filter);
        assert(views.take(0) =~= Seq::<CommandText>::empty());
        assert(text@ =~= HELP_HEADER@ + command_blocks(shown_commands(views.take(0), os)));
    }
    while i < table.len()
        invariant
            i <= table@.len(),
            views == table@.map_values(|c: CommandHelp| c@),
            os == current_os@,
            text@ == HELP_HEADER@ + command_blocks(shown_commands(views.take(i as int), os)),
        decreases table@.len() - i,
    {
        let command = &table[i];
        proof {
            lemma_shown_commands_step(views, os, i as int);
        }
        if is_supported_on(command, current_os) {
            push_command(&mut text, command);
            proof {
                let shown = shown_commands(views.take(i + 1), os);
                assert(shown.drop_last() =~= shown_commands(views.take(i as int), os));
                assert(shown.last() == command@);
                assert(text@ =~= HELP_HEADER@ + command_blocks(shown));
            }
        }
        i += 1;
    }
    assert(views.take(i as int) =~= views);
    text.append(HELP_MCP);
    text.append(HELP_TIPS);
    text
}

/// A command of the table that exists on `os` is one of the commands shown.
pub proof fn lemma_supported_command_shown(table: Seq<CommandText>, os: Seq<char>, i: int)
    requires
        0 <= i < table.len(),
        is_supported(table[i], os),
    ensures
        shown_commands(table, os).contains(table[i]),
{
    broadcast use vstd::seq_lib::group_filter_ensures;

}

/// A command that does not exist on `os` is none of the commands shown, and
/// every command shown comes from the table.
pub proof fn lemma_unsupported_command_hidden(
    table: Seq<CommandText>,
    os: Seq<char>,
    command: CommandText,
)
    ensures
        !is_supported(command, os) ==> !shown_commands(table, os).contains(command),
        shown_commands(table, os).contains(command) ==> table.contains(command),
{
    broadcast use vstd::seq_lib::group_filter_ensures;

    let shown = shown_commands(table, os);
    if shown.contains(command) {
        let j = choose|j: int| 0 <= j < shown.len() && shown[j] == command;
        assert(is_supported(shown[j], os));
        table.lemma_filter_contains_rev(|c: CommandText| is_supported(c, os), command);
    }
}

/// A list of commands that all exist on `os` is shown whole.
proof fn lemma_all_supported_shown(commands: Seq<CommandText>, os: Seq<char>)
    requires
        forall|i: int| 0 <= i < commands.len() ==> is_supported(#[trigger] commands[i], os),
    ensures
        shown_commands(commands, os) == commands,
    decreases commands.len(),
{
    reveal(Seq::filter);
    if commands.len() > 0 {
        let front = commands.drop_last();
        assert forall|i: int| 0 <= i < front.len() implies is_supported(#[trigger] front[i], os) by {
            assert(front[i] == commands[i]);
        }
        lemma_all_supported_shown(front, os);
        assert(is_supported(commands[commands.len() - 1], os));
        assert(front.push(commands.last()) =~= commands);
    }
}

/// The help text for `os` says nothing of the commands that do not exist on
/// `os`: it is the text of the table without them.
pub proof fn lemma_help_text_ignores_unsupported(table: Seq<CommandText>, os: Seq<char>)
    ensures
        help_text(table, os) == help_text(shown_commands(table, os), os),
{
    broadcast use vstd::seq_lib::group_filter_ensures;

    let shown = shown_commands(table, os);
    assert forall|i: int| 0 <= i < shown.len() implies is_supported(#[trigger] shown[i], os) by {}
    lemma_all_supported_shown(shown, os);
}

/// The block of each command of a list occurs in the blocks of the list.
proof fn lemma_block_occurs(commands: Seq<CommandText>, j: int)
    requires
        0 <= j < commands.len(),
    ensures
        occurs_in(command_block(commands[j]), command_blocks(commands)),
    decreases commands.len(),
{
    let front = commands.drop_last();
    let last = command_block(commands.last());
    if j == commands.len() - 1 {
        lemma_occurs_in_middle(command_blocks(front), last, Seq::empty());
        assert(command_blocks(front) + last + Seq::<char>::empty() =~= command_blocks(commands));
    } else {
        lemma_block_occurs(front, j);
        lemma_occurs_in_middle(Seq::empty(), command_blocks(front), last);
        assert(Seq::<char>::empty() + command_blocks(front) + last =~= command_blocks(commands));
        lemma_occurs_in_trans(
            command_block(commands[j]),
            command_blocks(front),
            command_blocks(commands),
        );
    }
}

/// The help text for `os` names every command of the table that exists on
/// `os`: the command's name and its description stand in the text.
pub proof fn lemma_help_text_lists_supported(table: Seq<CommandText>, os: Seq<char>, i: int)
    requires
        0 <= i < table.len(),
        is_supported(table[i], os),
    ensures
        occurs_in(table[i].command, help_text(table, os)),
        occurs_in(table[i].description, help_text(table, os)),
        occurs_in(command_block(table[i]), help_text(table, os)),
{
    let shown = shown_commands(table, os);
    let command = table[i];
    let text = help_text(table, os);
    lemma_supported_command_shown(table, os, i);
    let j = choose|j: int| 0 <= j < shown.len() && shown[j] == command;
    lemma_block_occurs(shown, j);
    lemma_occurs_in_middle(HELP_HEADER@, command_blocks(shown), HELP_MCP@ + HELP_TIPS@);
    assert(HELP_HEADER@ + command_blocks(shown) + (HELP_MCP@ + HELP_TIPS@) =~= text);
    lemma_occurs_in_trans(command_block(command), command_blocks(shown), text);

    let block = command_block(command);
    lemma_occurs_in_middle(
        "\x1b[1m"@,
        command.command,
        "\x1b[22m"@ + "        "@ + muted(command.description) + "\n"@ + subcommand_lines(
            command.subcommands,
        ),
    );
    assert("\x1b[1m"@ + command.command + ("\x1b[22m"@ + "        "@ + muted(command.description)
        + "\n"@ + subcommand_lines(command.subcommands)) =~= block);
    lemma_occurs_in_trans(command.command, block, text);

    lemma_occurs_in_middle(
        emphasized(command.command) + "        "@ + "\x1b[90m"@,
        command.description,
        "\x1b[39m"@ + "\n"@ + subcommand_lines(command.subcommands),
    );
    assert(emphasized(command.command) + "        "@ + "\x1b[90m"@ + command.description + (
    "\x1b[39m"@ + "\n"@ + subcommand_lines(command.subcommands)) =~= block);
    lemma_occurs_in_trans(command.description, block, text);
}

/// The text that explains the `/compact` command.
pub const COMPACT_HELP: &'static str =
    "\n\x1b[35m\x1b[1mConversation Compaction\x1b[39m\x1b[22m\n\nThe \x1b[1m/compact\x1b[22m command summarizes the conversation history to free up context space\nwhile preserving essential information. This is useful for long-running conversations\nthat may eventually reach memory constraints.\n\n\x1b[96mUsage\x1b[39m\n  \x1b[1m/compact\x1b[22m                   \x1b[90mSummarize the conversation and clear history\x1b[39m\n  \x1b[1m/compact [prompt]\x1b[22m          \x1b[90mProvide custom guidance for summarization\x1b[39m\n\n\x1b[96mWhen to use\x1b[39m\n• When you see the memory constraint warning message\n• When a conversation has been running for a long time\n• Before starting a new topic within the same session\n• After completing complex tool operations\n\n\x1b[96mHow it works\x1b[39m\n• Creates an AI-generated summary of your conversation\n• Retains key information, code, and tool executions in the summary\n• Clears the conversation history to free up space\n• The assistant will reference the summary context in future responses\n";

/// The help text of the `/compact` command.
pub fn compact_help_text() -> (text: String)
    ensures
        text@ == COMPACT_HELP@,
{
    String::from_str(COMPACT_HELP)
}

/// Whether `os` is one of the tags that an entry may carry.
pub open spec fn is_os_tag(os: Seq<char>) -> bool {
    os == "all"@ || os == "windows"@ || os == "unix"@
}

/// What every entry of a catalogue must meet: the command begins with `/`;
/// command and description are one line each, and the description says
/// something; the entry names at least one system, and only known ones; each
/// subcommand has a name and a description.
pub open spec fn well_formed(command: CommandText) -> bool {
    &&& command.command.len() > 0
    &&& command.command.first() == '/'
    &&& !command.command.contains('\n')
    &&& command.description.len() > 0
    &&& !command.description.contains('\n')
    &&& command.supported_os.len() > 0
    &&& forall|i: int|
        0 <= i < command.supported_os.len() ==> is_os_tag(#[trigger] command.supported_os[i])
    &&& forall|i: int|
        0 <= i < command.subcommands.len() ==> {
            &&& (#[trigger] command.subcommands[i]).name.len() > 0
            &&& command.subcommands[i].description.len() > 0
        }
}

/// Every entry of the catalogue is well formed.
pub proof fn lemma_help_table_well_formed()
    ensures
        forall|i: int| 0 <= i < help_table().len() ==> well_formed(#[trigger] help_table()[i]),
{
    assert(well_formed(help_table()[0])) by {
        reveal_strlit("/clear");
        reveal_strlit("Clear the conversation history");
    }
    assert(well_formed(help_table()[1])) by {
        reveal_strlit("/issue");
        reveal_strlit("Report an issue or make a feature request");
    }
    assert(well_formed(help_table()[2])) by {
        reveal_strlit("/editor");
        reveal_strlit("Open $EDITOR (defaults to vi) to compose a prompt");
    }
    assert(well_formed(help_table()[3])) by {
        reveal_strlit("/help");
        reveal_strlit("Show this help dialogue");
    }
    assert(well_formed(help_table()[4])) by {
        reveal_strlit("/quit");
        reveal_strlit("Quit the application");
    }
    assert(well_formed(help_table()[5])) by {
        reveal_strlit("/compact");
        reveal_strlit("Summarize the conversation to free up context space");
        reveal_strlit("help");
        reveal_strlit("Show help for the compact command");
        reveal_strlit("[prompt]");
        reveal_strlit("Optional custom prompt to guide summarization");
    }
    assert(well_formed(help_table()[6])) by {
        reveal_strlit("/tools");
        reveal_strlit("View and manage tools and permissions");
        reveal_strlit("help");
        reveal_strlit("Show an explanation for the trust command");
        reveal_strlit("trust");
        reveal_strlit("Trust a specific tool or tools for the session");
        reveal_strlit("untrust");
        reveal_strlit("Revert a tool or tools to per-request confirmation");
        reveal_strlit("trustall");
        reveal_strlit("Trust all tools (equivalent to deprecated /acceptall)");
        reveal_strlit("reset");
        reveal_strlit("Reset all tools to default permission levels");
    }
    assert(well_formed(help_table()[7])) by {
        reveal_strlit("/mcp");
        reveal_strlit("See mcp server loaded");
    }
    assert(well_formed(help_table()[8])) by {
        reveal_strlit("/model");
        reveal_strlit("Select a model for the current conversation session");
    }
    assert(well_formed(help_table()[9])) by {
        reveal_strlit("/profile");
        reveal_strlit("Manage profiles");
        reveal_strlit("help");
        reveal_strlit("Show profile help");
        reveal_strlit("list");
        reveal_strlit("List profiles");
        reveal_strlit("set");
        reveal_strlit("Set the current profile");
        reveal_strlit("create");
        reveal_strlit("Create a new profile");
        reveal_strlit("delete");
        reveal_strlit("Delete a profile");
        reveal_strlit("rename");
        reveal_strlit("Rename a profile");
    }
    assert(well_formed(help_table()[10])) by {
        reveal_strlit("/prompts");
        reveal_strlit("View and retrieve prompts");
        reveal_strlit("help");
        reveal_strlit("Show prompts help");
        reveal_strlit("list");
        reveal_strlit("List or search available prompts");
        reveal_strlit("get");
        reveal_strlit("Retrieve and send a prompt");
    }
    assert(well_formed(help_table()[11])) by {
        reveal_strlit("/context");
        reveal_strlit("Manage context files and hooks for the chat session");
        reveal_strlit("help");
        reveal_strlit("Show context help");
        reveal_strlit("show");
        reveal_strlit("Display current context rules configuration [--expand]");
        reveal_strlit("add");
        reveal_strlit("Add file(s) to context [--global] [--force]");
        reveal_strlit("rm");
        reveal_strlit("Remove file(s) from context [--global]");
        reveal_strlit("clear");
        reveal_strlit("Clear all files from current context [--global]");
        reveal_strlit("hooks");
        reveal_strlit("View and manage context hooks");
    }
    assert(well_formed(help_table()[12])) by {
        reveal_strlit("/usage");
        reveal_strlit("Show current session's context window usage");
    }
    assert(well_formed(help_table()[13])) by {
        reveal_strlit("/load");
        reveal_strlit("Load conversation state from a JSON file");
    }
    assert(well_formed(help_table()[14])) by {
        reveal_strlit("/save");
        reveal_strlit("Save conversation state to a JSON file");
    }
    assert(well_formed(help_table()[15])) by {
        reveal_strlit("/subscribe");
        reveal_strlit("Upgrade to a Q Developer Pro subscription for increased query limits");
        reveal_strlit("manage");
        reveal_strlit("View and manage your existing subscription on AWS");
    }
}

} // verus!
