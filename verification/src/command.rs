//! The command tree: one node per registered command, with its names,
//! aliases, restriction flags, permission requirements, cooldown state and
//! subcommands. The tree is plain data; behavior lives in the lookup, the
//! checks and the dispatcher. A node's qualified name is its ancestor chain
//! joined by single spaces, computed once after the tree is assembled and
//! before any lookup runs.

use vstd::prelude::*;

use crate::cooldown::{CooldownConfig, CooldownTracker};
use crate::permissions::{ChannelType, Permissions};

verus! {

broadcast use vstd::std_specs::vec::group_vec_axioms, vstd::seq::group_seq_axioms;

/// Which kind of context-menu entry a command provides.
#[derive(Clone, Copy, Debug, PartialEq, Eq, Structural)]
pub enum ContextMenuCommandAction {
    /// An entry shown on a user.
    User,
    /// An entry shown on a message.
    Message,
}

/// The platform-side type of a slash-command option.
#[derive(Clone, Copy, Debug, PartialEq, Eq, Structural)]
pub enum CommandOptionType {
    /// A nested subcommand.
    SubCommand,
    /// A group of nested subcommands.
    SubCommandGroup,
    /// A free-text option.
    Text,
    /// An integer option.
    Integer,
    /// A true/false option.
    Boolean,
    /// A user option.
    User,
    /// A channel option.
    Channel,
    /// A role option.
    Role,
    /// A user-or-role option.
    Mentionable,
    /// A numeric option.
    Number,
    /// An attachment option.
    Attachment,
}

/// Where a command can be installed.
#[derive(Clone, Copy, Debug, PartialEq, Eq, Structural)]
pub enum InstallationContext {
    /// Installed on a guild.
    Guild,
    /// Installed on a user.
    User,
}

/// Where an installed command can be invoked.
#[derive(Clone, Copy, Debug, PartialEq, Eq, Structural)]
pub enum InteractionContext {
    /// Inside a guild.
    Guild,
    /// In the bot's direct messages.
    BotDm,
    /// In any private channel.
    PrivateChannel,
}

/// One fixed drop-down choice of a choice parameter.
#[derive(Clone, Debug)]
pub struct CommandParameterChoice {
    /// Label of the choice.
    pub name: String,
    /// Localized labels, keyed by locale.
    pub localizations: Vec<(String, String)>,
}

/// One parameter of a command.
#[derive(Clone, Debug)]
pub struct CommandParameter {
    /// Name of the parameter.
    pub name: String,
    /// Localized names, keyed by locale.
    pub name_localizations: Vec<(String, String)>,
    /// Description of the parameter.
    pub description: Option<String>,
    /// Localized descriptions, keyed by locale.
    pub description_localizations: Vec<(String, String)>,
    /// Whether the parameter must be supplied.
    pub required: bool,
    /// For channel parameters, the channel kinds a user may pick.
    pub channel_types: Option<Vec<ChannelType>>,
    /// For choice parameters, the fixed list of choices.
    pub choices: Vec<CommandParameterChoice>,
    /// The platform-side type this parameter registers as; absent when the
    /// parameter cannot be represented as a slash-command option.
    pub type_setter: Option<CommandOptionType>,
    /// Whether the parameter offers autocomplete suggestions.
    pub has_autocomplete: bool,
}

/// One node of the command tree.
#[derive(Debug)]
pub struct Command {
    /// Whether the command can run from a prefixed chat message.
    pub has_prefix_action: bool,
    /// Whether the command can run from a slash invocation.
    pub has_slash_action: bool,
    /// The context-menu entry the command provides, if any.
    pub context_menu_action: Option<ContextMenuCommandAction>,
    /// Subcommands of this command.
    pub subcommands: Vec<Command>,
    /// Whether invoking this command without a subcommand is an error.
    pub subcommand_required: bool,
    /// Main name of the command.
    pub name: String,
    /// Localized names, keyed by locale.
    pub name_localizations: Vec<(String, String)>,
    /// Full name including parent command names, populated by
    /// [`set_qualified_names`] once the tree is assembled.
    pub qualified_name: String,
    /// A stable identifier for this command within a list of commands.
    pub identifying_name: String,
    /// The name of the function the command was defined as.
    pub source_code_name: String,
    /// Category label for help listings.
    pub category: Option<String>,
    /// Whether to hide the command in help listings.
    pub hide_in_help: bool,
    /// Short description.
    pub description: Option<String>,
    /// Localized descriptions, keyed by locale.
    pub description_localizations: Vec<(String, String)>,
    /// Multiline usage help.
    pub help_text: Option<String>,
    /// Per-command override for automatic cooldown handling.
    pub manual_cooldowns: Option<bool>,
    /// Whether a leaf command also matches tokens that merely start with
    /// its name, handing the unmatched tail to the command as a modifier.
    pub has_modifier: bool,
    /// The cooldown bookkeeping of this command.
    pub cooldowns: CooldownTracker,
    /// The cooldown configuration of this command.
    pub cooldown_config: CooldownConfig,
    /// Whether later responses edit the first response instead of sending
    /// new messages.
    pub reuse_response: bool,
    /// Permissions the platform requires of members before showing the
    /// command; not checked here.
    pub default_member_permissions: Permissions,
    /// Permissions the invoking user must have.
    pub required_permissions: Permissions,
    /// Permissions the bot itself must have.
    pub required_bot_permissions: Permissions,
    /// Whether only configured owners may invoke the command.
    pub owners_only: bool,
    /// Whether the command may only run inside a guild.
    pub guild_only: bool,
    /// Whether the command may only run in direct messages.
    pub dm_only: bool,
    /// Whether the command may only run in age-restricted channels.
    pub nsfw_only: bool,
    /// Parameters of the command.
    pub parameters: Vec<CommandParameter>,
    /// Alternative prefix-invocation names.
    pub aliases: Vec<String>,
    /// Whether an edit of the invocation message re-runs the command.
    pub invoke_on_edit: bool,
    /// Whether deleting the invocation message deletes the response.
    pub track_deletion: bool,
    /// Whether to broadcast a typing indicator while the command runs.
    pub broadcast_typing: bool,
    /// Context-menu-specific display name.
    pub context_menu_name: Option<String>,
    /// Whether responses default to being ephemeral.
    pub ephemeral: bool,
    /// Installation contexts to register the command for.
    pub install_context: Option<Vec<InstallationContext>>,
    /// Interaction contexts to register the command for.
    pub interaction_context: Option<Vec<InteractionContext>>,
}

impl Default for Command {
    /// A command with an empty name, no subcommands, no restrictions and no
    /// actions.
    fn default() -> (r: Command)
        ensures
            !r.has_prefix_action,
            !r.has_slash_action,
            r.context_menu_action is None,
            r.subcommands@.len() == 0,
            !r.subcommand_required,
            r.name@.len() == 0,
            r.name_localizations@.len() == 0,
            r.qualified_name@.len() == 0,
            r.identifying_name@.len() == 0,
            r.source_code_name@.len() == 0,
            r.category is None,
            !r.hide_in_help,
            r.description is None,
            r.description_localizations@.len() == 0,
            r.help_text is None,
            r.manual_cooldowns is None,
            !r.has_modifier,
            r.cooldowns.global_invocation is None,
            r.cooldowns.user_invocations@.len() == 0,
            r.cooldowns.guild_invocations@.len() == 0,
            r.cooldowns.channel_invocations@.len() == 0,
            r.cooldowns.member_invocations@.len() == 0,
            r.cooldown_config == (CooldownConfig {
                global: None,
                user: None,
                guild: None,
                channel: None,
                member: None,
            }),
            !r.reuse_response,
            r.default_member_permissions.bits == 0,
            r.required_permissions.bits == 0,
            r.required_bot_permissions.bits == 0,
            !r.owners_only,
            !r.guild_only,
            !r.dm_only,
            !r.nsfw_only,
            r.parameters@.len() == 0,
            r.aliases@.len() == 0,
            !r.invoke_on_edit,
            !r.track_deletion,
            !r.broadcast_typing,
            r.context_menu_name is None,
            !r.ephemeral,
            r.install_context is None,
            r.interaction_context is None,
    {
        Command {
            has_prefix_action: false,
            has_slash_action: false,
            context_menu_action: None,
            subcommands: Vec::new(),
            subcommand_required: false,
            name: String::new(),
            name_localizations: Vec::new(),
            qualified_name: String::new(),
            identifying_name: String::new(),
            source_code_name: String::new(),
            category: None,
            hide_in_help: false,
            description: None,
            description_localizations: Vec::new(),
            help_text: None,
            manual_cooldowns: None,
            has_modifier: false,
            cooldowns: CooldownTracker::new(),
            cooldown_config: CooldownConfig {
                global: None,
                user: None,
                guild: None,
                channel: None,
                member: None,
            },
            reuse_response: false,
            default_member_permissions: Permissions { bits: 0 },
            required_permissions: Permissions { bits: 0 },
            required_bot_permissions: Permissions { bits: 0 },
            owners_only: false,
            guild_only: false,
            dm_only: false,
            nsfw_only: false,
            parameters: Vec::new(),
            aliases: Vec::new(),
            invoke_on_edit: false,
            track_deletion: false,
            broadcast_typing: false,
            context_menu_name: None,
            ephemeral: false,
            install_context: None,
            interaction_context: None,
        }
    }
}

/// `a` agrees with `b` on every field but the qualified name and the
/// subcommand list.
pub open spec fn spec_same_except_qualification(b: Command, a: Command) -> bool {
    a == Command { qualified_name: a.qualified_name, subcommands: a.subcommands, ..b }
}

/// `a` is `b` with every qualified name below it set: its own becomes the
/// ancestor chain `parents`, a space, and its name; its subcommands follow
/// suit with `a`'s new qualified name as their ancestor chain.
pub open spec fn spec_command_requalified(parents: Seq<char>, b: Command, a: Command) -> bool
    decreases b,
{
    let child_parents = parents + seq![' '] + b.name@;
    &&& spec_same_except_qualification(b, a)
    &&& a.qualified_name@ == child_parents
    &&& spec_commands_requalified(child_parents, b.subcommands@, a.subcommands@)
}

/// Pairwise [`spec_command_requalified`] over two command lists.
pub open spec fn spec_commands_requalified(
    parents: Seq<char>,
    before: Seq<Command>,
    after: Seq<Command>,
) -> bool
    decreases before,
{
    &&& before.len() == after.len()
    &&& (before.len() > 0 ==> {
        &&& spec_command_requalified(parents, before[0], after[0])
        &&& spec_commands_requalified(parents, before.drop_first(), after.drop_first())
    })
}

/// The list relation, element by element.
pub proof fn lemma_commands_requalified_index(
    parents: Seq<char>,
    before: Seq<Command>,
    after: Seq<Command>,
    i: int,
)
    requires
        spec_commands_requalified(parents, before, after),
        0 <= i < before.len(),
    ensures
        spec_command_requalified(parents, before[i], after[i]),
    decreases before.len(),
{
    if i > 0 {
        lemma_commands_requalified_index(parents, before.drop_first(), after.drop_first(), i - 1);
        assert(before.drop_first()[i - 1] == before[i]);
        assert(after.drop_first()[i - 1] == after[i]);
    }
}

/// The list relation, from its elements.
pub proof fn lemma_commands_requalified_pointwise(
    parents: Seq<char>,
    before: Seq<Command>,
    after: Seq<Command>,
)
    requires
        before.len() == after.len(),
        forall|i: int|
            0 <= i < before.len() ==> spec_command_requalified(parents, before[i], after[i]),
    ensures
        spec_commands_requalified(parents, before, after),
    decreases before.len(),
{
    if before.len() > 0 {
        assert forall|i: int|
            0 <= i < before.drop_first().len() implies spec_command_requalified(
            parents,
            before.drop_first()[i],
            after.drop_first()[i],
        ) by {
            assert(before.drop_first()[i] == before[i + 1]);
            assert(after.drop_first()[i] == after[i + 1]);
        }
        lemma_commands_requalified_pointwise(parents, before.drop_first(), after.drop_first());
    }
}

/// Rebuilds one command with its qualified name, and those of everything
/// below it, set against the ancestor chain `parents`.
#[verifier::loop_isolation(false)]
fn requalify_command(parents: &str, c: Command) -> (r: Command)
    ensures
        spec_command_requalified(parents@, c, r),
    decreases c,
{
    let ghost c0 = c;
    let mut c = c;
    let mut qualified: String = String::from_str(parents);
    qualified.append(" ");
    qualified.append(c.name.as_str());
    proof {
        reveal_strlit(" ");
        assert(" "@ =~= seq![' ']);
        assert(qualified@ == parents@ + seq![' '] + c0.name@);
    }

    let mut remaining: Vec<Command> = Vec::new();
    core::mem::swap(&mut remaining, &mut c.subcommands);
    let ghost subs0 = remaining@;
    proof {
        assert(subs0 =~= subs0.skip(0));
    }
    let mut requalified: Vec<Command> = Vec::new();
    while remaining.len() > 0
        invariant
            subs0 == c0.subcommands@,
            requalified@.len() + remaining@.len() == subs0.len(),
            remaining@ == subs0.skip(requalified@.len() as int),
            qualified@ == parents@ + seq![' '] + c0.name@,
            forall|j: int|
                0 <= j < requalified@.len() ==> spec_command_requalified(
                    qualified@,
                    subs0[j],
                    requalified@[j],
                ),
        decreases remaining@.len(),
    {
        let ghost done = requalified@.len() as int;
        proof {
            assert(remaining@[0] == subs0[done]);
            assert(remaining@.drop_first() =~= subs0.skip(done + 1));
        }
        let sub: Command = remaining.remove(0);
        proof {
            assert(sub == c0.subcommands@[done]);
            assert(decreases_to!(c0 => c0.subcommands));
            assert(decreases_to!(c0.subcommands => c0.subcommands@));
            assert(decreases_to!(c0.subcommands@ => c0.subcommands@[done]));
            assert(decreases_to!(c0 => sub));
        }
        let requalified_sub: Command = requalify_command(qualified.as_str(), sub);
        requalified.push(requalified_sub);
    }
    proof {
        lemma_commands_requalified_pointwise(qualified@, subs0, requalified@);
    }
    c.qualified_name = qualified;
    c.subcommands = requalified;
    c
}

/// The whole forest after qualification: each root keeps its own qualified
/// name and every command below it is requalified against the root's plain
/// name.
pub open spec fn spec_qualified_names_set(before: Seq<Command>, after: Seq<Command>) -> bool {
    &&& before.len() == after.len()
    &&& forall|i: int|
        0 <= i < before.len() ==> {
            &&& after[i] == Command { subcommands: after[i].subcommands, ..before[i] }
            &&& spec_commands_requalified(
                before[i].name@,
                before[i].subcommands@,
                after[i].subcommands@,
            )
        }
}

/// Walks the command tree and fills in every node's qualified name from its
/// ancestor chain. Run once, after the full tree is assembled and before
/// any lookup.
pub fn set_qualified_names(commands: &mut Vec<Command>)
    ensures
        spec_qualified_names_set(old(commands)@, final(commands)@),
{
    let ghost before = commands@;
    let mut i: usize = 0;
    let len: usize = commands.len();
    while i < len
        invariant
            i <= len,
            len == commands@.len(),
            len == before.len(),
            forall|j: int| i <= j < len ==> commands@[j] == before[j],
            forall|j: int|
                0 <= j < i ==> {
                    &&& commands@[j] == Command { subcommands: commands@[j].subcommands, ..before[j] }
                    &&& spec_commands_requalified(
                        before[j].name@,
                        before[j].subcommands@,
                        commands@[j].subcommands@,
                    )
                },
        decreases len - i,
    {
        let mut root: Command = commands.remove(i);
        let mut subs: Vec<Command> = Vec::new();
        core::mem::swap(&mut subs, &mut root.subcommands);
        let ghost subs0 = subs@;
        proof {
            assert(subs0 =~= subs0.skip(0));
        }
        let mut remaining: Vec<Command> = subs;
        let mut requalified: Vec<Command> = Vec::new();
        while remaining.len() > 0
            invariant
                subs0 == before[i as int].subcommands@,
                root.name@ == before[i as int].name@,
                requalified@.len() + remaining@.len() == subs0.len(),
                remaining@ == subs0.skip(requalified@.len() as int),
                forall|j: int|
                    0 <= j < requalified@.len() ==> spec_command_requalified(
                        before[i as int].name@,
                        subs0[j],
                        requalified@[j],
                    ),
            decreases remaining@.len(),
        {
            let ghost done = requalified@.len() as int;
            proof {
                assert(remaining@[0] == subs0[done]);
                assert(remaining@.drop_first() =~= subs0.skip(done + 1));
            }
            let sub: Command = remaining.remove(0);
            let requalified_sub: Command = requalify_command(root.name.as_str(), sub);
            requalified.push(requalified_sub);
        }
        proof {
            lemma_commands_requalified_pointwise(before[i as int].name@, subs0, requalified@);
        }
        root.subcommands = requalified;
        commands.insert(i, root);
        i += 1;
    }
}

} // verus!
